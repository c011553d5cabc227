use vstd::prelude::*;

verus! {

/// Result of an operation of the OS layer, in the order of its C codes.
#[allow(non_camel_case_types)]
#[derive(Clone, Copy, Debug, PartialEq, Eq, Structural)]
pub enum pte_osResult {
    PTE_OS_OK,
    PTE_OS_NO_RESOURCES,
    PTE_OS_GENERAL_FAILURE,
    PTE_OS_TIMEOUT,
    PTE_OS_INTERRUPTED,
    PTE_OS_INVALID_PARAM,
}

impl pte_osResult {
    /// The C code of a result: its position in the list above, from 0.
    pub open spec fn code_spec(self) -> i32 {
        match self {
            pte_osResult::PTE_OS_OK => 0,
            pte_osResult::PTE_OS_NO_RESOURCES => 1,
            pte_osResult::PTE_OS_GENERAL_FAILURE => 2,
            pte_osResult::PTE_OS_TIMEOUT => 3,
            pte_osResult::PTE_OS_INTERRUPTED => 4,
            pte_osResult::PTE_OS_INVALID_PARAM => 5,
        }
    }

    /// The C code of this result.
    pub fn code(&self) -> (c: i32)
        ensures
            c == self.code_spec(),
            0 <= c <= 5,
    {
        match self {
            pte_osResult::PTE_OS_OK => 0,
            pte_osResult::PTE_OS_NO_RESOURCES => 1,
            pte_osResult::PTE_OS_GENERAL_FAILURE => 2,
            pte_osResult::PTE_OS_TIMEOUT => 3,
            pte_osResult::PTE_OS_INTERRUPTED => 4,
            pte_osResult::PTE_OS_INVALID_PARAM => 5,
        }
    }
}

/// Distinct results have distinct C codes.
pub proof fn lemma_code_injective(a: pte_osResult, b: pte_osResult)
    ensures
        a.code_spec() == b.code_spec() <==> a == b,
{
}

} // verus!

use vstd::prelude::*;

verus! {

/// The value of a counter after an atomic add of -1 that reported `old`.
pub fn decremented(old: i32) -> (r: i32)
    requires
        old > i32::MIN,
    ensures
        r == old - 1,
{
    old - 1
}

/// The value of a counter after an atomic add of 1 that reported `old`.
pub fn incremented(old: i32) -> (r: i32)
    requires
        old < i32::MAX,
    ensures
        r == old + 1,
{
    old + 1
}

} // verus!

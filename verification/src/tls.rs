use vstd::prelude::*;
use std::collections::BTreeMap;
use crate::result::pte_osResult;

verus! {

broadcast use vstd::std_specs::btree::group_btree_axioms;

/// The thread-local values of one thread: for each key, the address stored
/// under it. Address 0 stands for the null pointer.
pub struct ThreadLocals {
    values: BTreeMap<u32, usize>,
}

/// The key counter shared by all threads.
pub struct TlsKeys {
    next: usize,
}

impl View for ThreadLocals {
    type V = Map<u32, usize>;

    closed spec fn view(&self) -> Map<u32, usize> {
        self.values@
    }
}

/// The value read under `index` from `locals`: the stored address, or null (0)
/// when nothing was stored there.
pub open spec fn tls_read(locals: Map<u32, usize>, index: u32) -> usize {
    if locals.contains_key(index) {
        locals[index]
    } else {
        0
    }
}

impl ThreadLocals {
    /// A thread's values before it stores any.
    pub fn new() -> (r: ThreadLocals)
        ensures
            r@ == Map::<u32, usize>::empty(),
    {
        ThreadLocals { values: BTreeMap::new() }
    }

    /// Stores `value` under `index`, replacing what was there. Always succeeds.
    pub fn set_value(&mut self, index: u32, value: usize) -> (r: pte_osResult)
        ensures
            final(self)@ == old(self)@.insert(index, value),
            r == pte_osResult::PTE_OS_OK,
    {
        self.values.insert(index, value);
        pte_osResult::PTE_OS_OK
    }

    /// Reads the value under `index`, null (0) when none was stored.
    pub fn get_value(&self, index: u32) -> (r: usize)
        ensures
            r == tls_read(self@, index),
    {
        match self.values.get(&index) {
            Some(v) => *v,
            None => 0,
        }
    }
}

/// The thread's values: those the slot holds, or, on the first call, new empty
/// ones that the slot keeps from then on.
pub fn locals(slot: &mut Option<ThreadLocals>) -> (r: &mut ThreadLocals)
    ensures
        *old(slot) is None ==> r@ == Map::<u32, usize>::empty(),
        *old(slot) is Some ==> *r == (*old(slot))->Some_0,
        *final(slot) == Some(*final(r)),
{
    slot.get_or_insert(ThreadLocals::new())
}

impl TlsKeys {
    /// The counter before any key was allocated.
    pub fn new() -> (r: TlsKeys)
        ensures
            r.next_key() == 0,
    {
        TlsKeys { next: 0 }
    }

    /// The counter's value.
    pub closed spec fn next_key(&self) -> usize {
        self.next
    }

    /// Allocating a key advances the counter by one, wrapping at `usize::MAX`,
    /// and succeeds. The key is not handed to the caller.
    pub fn allocate(&mut self) -> (r: pte_osResult)
        ensures
            final(self).next_key() == (if old(self).next_key() == usize::MAX { 0 } else {
                (old(self).next_key() + 1) as usize
            }),
            r == pte_osResult::PTE_OS_OK,
    {
        if self.next == usize::MAX {
            self.next = 0;
        } else {
            self.next = self.next + 1;
        }
        pte_osResult::PTE_OS_OK
    }

    /// Freeing a key changes nothing and succeeds.
    pub fn release(&self, _index: u32) -> (r: pte_osResult)
        ensures
            r == pte_osResult::PTE_OS_OK,
    {
        pte_osResult::PTE_OS_OK
    }
}

/// Reading a key gives back what was last stored under it.
pub proof fn law_read_after_store(locals: Map<u32, usize>, index: u32, value: usize)
    ensures
        tls_read(locals.insert(index, value), index) == value,
{
}

/// Storing under one key does not change what another key reads.
pub proof fn law_store_leaves_other_keys(locals: Map<u32, usize>, index: u32, other: u32, value: usize)
    requires
        index != other,
    ensures
        tls_read(locals.insert(index, value), other) == tls_read(locals, other),
{
}

/// A key under which nothing was stored reads null.
pub proof fn law_fresh_key_reads_null(index: u32)
    ensures
        tls_read(Map::<u32, usize>::empty(), index) == 0,
{
}

} // verus!

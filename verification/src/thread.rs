use vstd::prelude::*;
use std::collections::BTreeMap;
use crate::result::pte_osResult;

verus! {

broadcast use vstd::std_specs::btree::group_btree_axioms;

/// The registry of created threads: for each thread handle, the address of the
/// start mutex that holds the new thread until it is started.
pub struct ThreadRegistry {
    mutexes: BTreeMap<usize, usize>,
}

/// What a `clone` result means to the thread that sees it.
#[derive(Clone, Copy, Debug, PartialEq, Eq, Structural)]
pub enum CloneRole {
    /// The new thread, which saw 0.
    Child,
    /// The creating thread, which saw the handle of the new thread.
    Parent { handle: usize },
}

/// The outcome of starting `handle` with registry `reg`: success with the
/// start mutex to unlock when the handle is registered, general failure otherwise.
pub open spec fn start_result(reg: Map<usize, usize>, handle: usize) -> (pte_osResult, Option<usize>) {
    if reg.contains_key(handle) {
        (pte_osResult::PTE_OS_OK, Some(reg[handle]))
    } else {
        (pte_osResult::PTE_OS_GENERAL_FAILURE, None)
    }
}

/// The role of a thread that saw `clone_id` returned by `clone`: 0 goes to the
/// new thread, any other value to its creator, as the new thread's handle.
pub fn clone_role(clone_id: usize) -> (r: CloneRole)
    ensures
        clone_id == 0 ==> r == CloneRole::Child,
        clone_id != 0 ==> r == (CloneRole::Parent { handle: clone_id }),
{
    if clone_id == 0 {
        CloneRole::Child
    } else {
        CloneRole::Parent { handle: clone_id }
    }
}

impl View for ThreadRegistry {
    type V = Map<usize, usize>;

    closed spec fn view(&self) -> Map<usize, usize> {
        self.mutexes@
    }
}

impl ThreadRegistry {
    /// An empty registry.
    pub fn new() -> (r: ThreadRegistry)
        ensures
            r@ == Map::<usize, usize>::empty(),
    {
        ThreadRegistry { mutexes: BTreeMap::new() }
    }

    /// Registers the thread `handle`, held by the start mutex at
    /// `start_mutex`, replacing an earlier entry of the same handle.
    pub fn register(&mut self, handle: usize, start_mutex: usize)
        ensures
            final(self)@ == old(self)@.insert(handle, start_mutex),
    {
        self.mutexes.insert(handle, start_mutex);
    }

    /// Starting the thread `handle`: success, with the start mutex to unlock,
    /// exactly when the handle is registered; general failure otherwise.
    pub fn start(&self, handle: usize) -> (r: (pte_osResult, Option<usize>))
        ensures
            r == start_result(self@, handle),
    {
        match self.mutexes.get(&handle) {
            Some(m) => (pte_osResult::PTE_OS_OK, Some(*m)),
            None => (pte_osResult::PTE_OS_GENERAL_FAILURE, None),
        }
    }

    /// Deleting the thread `handle`: its entry leaves the registry, and its
    /// start mutex, if it had one, is handed back to be freed. Always succeeds.
    pub fn delete(&mut self, handle: usize) -> (r: (pte_osResult, Option<usize>))
        ensures
            final(self)@ == old(self)@.remove(handle),
            r.0 == pte_osResult::PTE_OS_OK,
            old(self)@.contains_key(handle) ==> r.1 == Some(old(self)@[handle]),
            !old(self)@.contains_key(handle) ==> r.1 == None::<usize>,
    {
        let m = self.mutexes.remove(&handle);
        (pte_osResult::PTE_OS_OK, m)
    }
}

/// A thread registered by its creator can be started, and starting it unlocks
/// the start mutex it was registered with.
pub proof fn law_start_after_create(reg: Map<usize, usize>, handle: usize, start_mutex: usize)
    ensures
        start_result(reg.insert(handle, start_mutex), handle) == (pte_osResult::PTE_OS_OK, Some(start_mutex)),
{
}

/// A deleted thread can no longer be started.
pub proof fn law_start_after_delete(reg: Map<usize, usize>, handle: usize)
    ensures
        start_result(reg.remove(handle), handle) == (pte_osResult::PTE_OS_GENERAL_FAILURE, None::<usize>),
{
}

/// Creating or deleting one thread does not change what starting another gives.
pub proof fn law_other_threads_unaffected(reg: Map<usize, usize>, handle: usize, other: usize, start_mutex: usize)
    requires
        handle != other,
    ensures
        start_result(reg.insert(other, start_mutex), handle) == start_result(reg, handle),
        start_result(reg.remove(other), handle) == start_result(reg, handle),
{
}

/// Deleting a thread that is not registered changes nothing.
pub proof fn law_delete_unknown_is_harmless(reg: Map<usize, usize>, handle: usize)
    requires
        !reg.contains_key(handle),
    ensures
        reg.remove(handle) == reg,
{
    assert(reg.remove(handle) =~= reg);
}

/// `x` read as a 32-bit two's complement integer.
pub open spec fn as_signed(x: u32) -> int {
    if x <= i32::MAX { x as int } else { x - 0x1_0000_0000 }
}

/// Remainder of `a` by a positive `b`, truncated toward zero: it has the sign of `a`.
pub open spec fn truncated_rem(a: int, b: int) -> int {
    if a >= 0 { a % b } else { -((-a) % b) }
}

/// The time to sleep for `msecs` milliseconds: the whole seconds, and the
/// remainder in milliseconds, taken of `msecs` read as a signed 32-bit value,
/// times 1000.
pub fn sleep_time(msecs: u32) -> (r: (i64, i32))
    ensures
        r.0 == msecs / 1000,
        r.1 == truncated_rem(as_signed(msecs), 1000) * 1000,
{
    let secs: i64 = (msecs / 1000) as i64;
    let sub: i32 = if msecs <= 0x7fff_ffff {
        ((msecs % 1000) * 1000) as i32
    } else {
        let magnitude: u64 = 0x1_0000_0000u64 - (msecs as u64);
        let rem: i32 = (magnitude % 1000) as i32;
        -(rem * 1000)
    };
    (secs, sub)
}

/// For a duration that fits a signed 32-bit value, the two parts of the sleep
/// time give back the milliseconds: `secs * 1000 + sub / 1000 == msecs`.
pub proof fn law_sleep_time_parts(msecs: u32, secs: int, sub: int)
    requires
        msecs <= i32::MAX,
        secs == msecs / 1000,
        sub == truncated_rem(as_signed(msecs), 1000) * 1000,
    ensures
        secs * 1000 + sub / 1000 == msecs,
        0 <= sub < 1_000_000,
{
}

/// Initialising the OS layer needs nothing and succeeds.
pub fn os_init() -> (r: pte_osResult)
    ensures
        r == pte_osResult::PTE_OS_OK,
{
    pte_osResult::PTE_OS_OK
}

/// Every thread has priority 1.
pub fn thread_priority(_handle: usize) -> (r: i32)
    ensures
        r == 1,
{
    1
}

/// Setting a priority is accepted and changes nothing.
pub fn set_thread_priority(_handle: usize, _priority: i32) -> (r: pte_osResult)
    ensures
        r == pte_osResult::PTE_OS_OK,
{
    pte_osResult::PTE_OS_OK
}

/// The lowest priority is 1.
pub fn min_thread_priority() -> (r: i32)
    ensures
        r == 1,
{
    1
}

/// The highest priority is 1.
pub fn max_thread_priority() -> (r: i32)
    ensures
        r == 1,
{
    1
}

/// The default priority is 1.
pub fn default_thread_priority() -> (r: i32)
    ensures
        r == 1,
{
    1
}

} // verus!

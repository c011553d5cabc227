use vstd::prelude::*;
use crate::result::pte_osResult;

verus! {

/// Value of a mutex word that nobody holds.
pub const MUTEX_UNLOCKED: i32 = 0;

/// Value of a mutex word held by one thread, with no thread asleep on it.
pub const MUTEX_LOCKED: i32 = 1;

/// Value of a mutex word held by one thread, with threads possibly asleep on it.
pub const MUTEX_CONTENDED: i32 = 2;

/// How many times a locker tries to take a free word, and how many times an
/// unlocker looks for a new holder, before either of them turns to the futex.
pub const SPIN_LIMIT: u32 = 100;

/// One operation on the 32-bit mutex word that the caller performs, or the
/// end of the protocol with its result.
///
/// After `Load`, `Exchange` and `CompareExchange` the caller reports the value
/// that the word held before the operation; after `Store`, `FutexWait` and
/// `FutexWake` what it reports is not read.
#[derive(Clone, Copy, Debug, PartialEq, Eq, Structural)]
pub enum MutexAction {
    /// Read the word.
    Load,
    /// Write the value into the word.
    Store(i32),
    /// Atomically write the value and read the old one.
    Exchange(i32),
    /// Atomically write `new` if the word holds `current`, and read the old value.
    CompareExchange { current: i32, new: i32 },
    /// Sleep on the word while it holds the value.
    FutexWait(i32),
    /// Wake up to that many threads asleep on the word.
    FutexWake(i32),
    /// The protocol has ended with this result.
    Finish(pte_osResult),
}

/// Where a thread stands in taking a mutex.
#[derive(Clone, Copy, Debug, PartialEq, Eq, Structural)]
pub enum LockState {
    /// A compare-exchange from unlocked to locked is pending; it is the
    /// `attempts`-th one.
    Spinning { attempts: u32 },
    /// An exchange that marks the word contended is pending.
    Exchanging,
    /// A futex wait on the contended word is pending.
    Sleeping,
    /// The mutex is taken.
    Acquired,
}

/// Where a thread stands in releasing a mutex.
#[derive(Clone, Copy, Debug, PartialEq, Eq, Structural)]
pub enum UnlockState {
    /// The first read of the word is pending.
    Reading,
    /// A plain store of the unlocked value is pending.
    Releasing,
    /// An exchange with the unlocked value is pending.
    Swapping,
    /// In round `round` of handing over, a read of the word is pending.
    Probing { round: u32 },
    /// In round `round` of handing over, a compare-exchange from locked to
    /// contended is pending.
    Handing { round: u32 },
    /// A futex wake of one sleeper is pending.
    Waking,
    /// The mutex is released.
    Released,
}

/// The operation that a lock in state `s` has asked for and not yet reported on.
pub open spec fn lock_pending(s: LockState) -> MutexAction {
    match s {
        LockState::Spinning { .. } => MutexAction::CompareExchange {
            current: MUTEX_UNLOCKED,
            new: MUTEX_LOCKED,
        },
        LockState::Exchanging => MutexAction::Exchange(MUTEX_CONTENDED),
        LockState::Sleeping => MutexAction::FutexWait(MUTEX_CONTENDED),
        LockState::Acquired => MutexAction::Finish(pte_osResult::PTE_OS_OK),
    }
}

/// A lock state is well formed when its attempt count is within the spin limit.
pub open spec fn lock_wf(s: LockState) -> bool {
    match s {
        LockState::Spinning { attempts } => 1 <= attempts <= SPIN_LIMIT,
        _ => true,
    }
}

/// The next state of a lock in state `s`, once the pending operation reported
/// `observed`. Spinning, a lock takes the word when it saw it free; after the
/// last attempt it marks the word contended, by an exchange where it saw it
/// held without sleepers, and sleeps at once otherwise. Awake again, it marks
/// the word contended and takes it if the exchange saw it free.
pub open spec fn lock_next_state(s: LockState, observed: i32) -> LockState {
    match s {
        LockState::Spinning { attempts } => {
            if observed == MUTEX_UNLOCKED {
                LockState::Acquired
            } else if attempts < SPIN_LIMIT {
                LockState::Spinning { attempts: (attempts + 1) as u32 }
            } else if observed == MUTEX_LOCKED {
                LockState::Exchanging
            } else {
                LockState::Sleeping
            }
        },
        LockState::Exchanging => {
            if observed == MUTEX_UNLOCKED {
                LockState::Acquired
            } else {
                LockState::Sleeping
            }
        },
        LockState::Sleeping => LockState::Exchanging,
        LockState::Acquired => LockState::Acquired,
    }
}

/// The operation that an unlock in state `s` has asked for and not yet reported on.
pub open spec fn unlock_pending(s: UnlockState) -> MutexAction {
    match s {
        UnlockState::Reading => MutexAction::Load,
        UnlockState::Releasing => MutexAction::Store(MUTEX_UNLOCKED),
        UnlockState::Swapping => MutexAction::Exchange(MUTEX_UNLOCKED),
        UnlockState::Probing { .. } => MutexAction::Load,
        UnlockState::Handing { .. } => MutexAction::CompareExchange {
            current: MUTEX_LOCKED,
            new: MUTEX_CONTENDED,
        },
        UnlockState::Waking => MutexAction::FutexWake(1),
        UnlockState::Released => MutexAction::Finish(pte_osResult::PTE_OS_OK),
    }
}

/// An unlock state is well formed when its round is below the spin limit.
pub open spec fn unlock_wf(s: UnlockState) -> bool {
    match s {
        UnlockState::Probing { round } => round < SPIN_LIMIT,
        UnlockState::Handing { round } => round < SPIN_LIMIT,
        _ => true,
    }
}

/// The state after handing-over round `round` found no new holder.
pub open spec fn unlock_after_round(round: u32) -> UnlockState {
    if round + 1 < SPIN_LIMIT {
        UnlockState::Probing { round: (round + 1) as u32 }
    } else {
        UnlockState::Waking
    }
}

/// The next state of an unlock in state `s`, once the pending operation
/// reported `observed`. A contended word is released by a store, any other by
/// an exchange, which ends the unlock if it took the word from locked. Then,
/// for up to `SPIN_LIMIT` rounds, the unlock looks for a thread that took the
/// word meanwhile and marks it contended, which ends the unlock; if none is
/// found it wakes one sleeper.
pub open spec fn unlock_next_state(s: UnlockState, observed: i32) -> UnlockState {
    match s {
        UnlockState::Reading => {
            if observed == MUTEX_CONTENDED {
                UnlockState::Releasing
            } else {
                UnlockState::Swapping
            }
        },
        UnlockState::Releasing => UnlockState::Probing { round: 0 },
        UnlockState::Swapping => {
            if observed == MUTEX_LOCKED {
                UnlockState::Released
            } else {
                UnlockState::Probing { round: 0 }
            }
        },
        UnlockState::Probing { round } => {
            if observed != MUTEX_UNLOCKED {
                UnlockState::Handing { round }
            } else {
                unlock_after_round(round)
            }
        },
        UnlockState::Handing { round } => {
            if observed != MUTEX_UNLOCKED {
                UnlockState::Released
            } else {
                unlock_after_round(round)
            }
        },
        UnlockState::Waking => UnlockState::Released,
        UnlockState::Released => UnlockState::Released,
    }
}

impl LockState {
    /// Begins taking a mutex: the first compare-exchange from unlocked to locked.
    pub fn start() -> (r: (LockState, MutexAction))
        ensures
            r.0 == (LockState::Spinning { attempts: 1 }),
            r.1 == lock_pending(r.0),
            lock_wf(r.0),
    {
        let s = LockState::Spinning { attempts: 1 };
        (s, MutexAction::CompareExchange { current: MUTEX_UNLOCKED, new: MUTEX_LOCKED })
    }

    /// Takes the value that the pending operation reported and gives the next
    /// state and the operation to perform next.
    pub fn step(self, observed: i32) -> (r: (LockState, MutexAction))
        requires
            lock_wf(self),
        ensures
            r.0 == lock_next_state(self, observed),
            r.1 == lock_pending(r.0),
            lock_wf(r.0),
            (self is Spinning || self is Exchanging) ==> (r.0 is Acquired <==> observed == MUTEX_UNLOCKED),
            (self is Spinning || self is Exchanging) ==> (r.1 == MutexAction::Finish(pte_osResult::PTE_OS_OK)
                <==> observed == MUTEX_UNLOCKED),
            self is Spinning && observed != MUTEX_UNLOCKED && self->attempts < SPIN_LIMIT ==> r.0
                == (LockState::Spinning { attempts: (self->attempts + 1) as u32 })
                && r.1 == (MutexAction::CompareExchange { current: MUTEX_UNLOCKED, new: MUTEX_LOCKED }),
            self is Spinning && self->attempts == SPIN_LIMIT && observed == MUTEX_LOCKED ==> r.1
                == MutexAction::Exchange(MUTEX_CONTENDED),
            self is Spinning && self->attempts == SPIN_LIMIT && observed != MUTEX_LOCKED && observed
                != MUTEX_UNLOCKED ==> r.1 == MutexAction::FutexWait(MUTEX_CONTENDED),
            self is Exchanging && observed != MUTEX_UNLOCKED ==> r.1 == MutexAction::FutexWait(MUTEX_CONTENDED),
            self is Sleeping ==> r.0 == LockState::Exchanging && r.1 == MutexAction::Exchange(MUTEX_CONTENDED),
            self is Acquired ==> r.0 == LockState::Acquired,
    {
        let next = match self {
            LockState::Spinning { attempts } => {
                if observed == MUTEX_UNLOCKED {
                    LockState::Acquired
                } else if attempts < SPIN_LIMIT {
                    LockState::Spinning { attempts: attempts + 1 }
                } else if observed == MUTEX_LOCKED {
                    LockState::Exchanging
                } else {
                    LockState::Sleeping
                }
            },
            LockState::Exchanging => {
                if observed == MUTEX_UNLOCKED {
                    LockState::Acquired
                } else {
                    LockState::Sleeping
                }
            },
            LockState::Sleeping => LockState::Exchanging,
            LockState::Acquired => LockState::Acquired,
        };
        (next, next.pending())
    }

    /// The operation that this state asks for.
    pub fn pending(&self) -> (a: MutexAction)
        ensures
            a == lock_pending(*self),
    {
        match self {
            LockState::Spinning { .. } => MutexAction::CompareExchange {
                current: MUTEX_UNLOCKED,
                new: MUTEX_LOCKED,
            },
            LockState::Exchanging => MutexAction::Exchange(MUTEX_CONTENDED),
            LockState::Sleeping => MutexAction::FutexWait(MUTEX_CONTENDED),
            LockState::Acquired => MutexAction::Finish(pte_osResult::PTE_OS_OK),
        }
    }
}

impl UnlockState {
    /// Begins releasing a mutex: the first read of the word.
    pub fn start() -> (r: (UnlockState, MutexAction))
        ensures
            r.0 == UnlockState::Reading,
            r.1 == unlock_pending(r.0),
    {
        (UnlockState::Reading, MutexAction::Load)
    }

    /// Takes the value that the pending operation reported and gives the next
    /// state and the operation to perform next.
    pub fn step(self, observed: i32) -> (r: (UnlockState, MutexAction))
        requires
            unlock_wf(self),
        ensures
            r.0 == unlock_next_state(self, observed),
            r.1 == unlock_pending(r.0),
            unlock_wf(r.0),
            !(self is Released) ==> (r.0 is Released <==> (self is Swapping && observed == MUTEX_LOCKED)
                || (self is Handing && observed != MUTEX_UNLOCKED) || self is Waking),
            self is Reading && observed == MUTEX_CONTENDED ==> r.1 == MutexAction::Store(MUTEX_UNLOCKED),
            self is Reading && observed != MUTEX_CONTENDED ==> r.1 == MutexAction::Exchange(MUTEX_UNLOCKED),
            self is Releasing ==> r.0 == (UnlockState::Probing { round: 0 }) && r.1 == MutexAction::Load,
            self is Swapping && observed != MUTEX_LOCKED ==> r.0 == (UnlockState::Probing { round: 0 })
                && r.1 == MutexAction::Load,
            self is Probing && observed != MUTEX_UNLOCKED ==> r.0 == (UnlockState::Handing {
                round: self->Probing_round,
            }) && r.1 == (MutexAction::CompareExchange { current: MUTEX_LOCKED, new: MUTEX_CONTENDED }),
            self is Probing && observed == MUTEX_UNLOCKED ==> (
                if self->Probing_round + 1 < SPIN_LIMIT {
                    r.0 == (UnlockState::Probing { round: (self->Probing_round + 1) as u32 })
                        && r.1 == MutexAction::Load
                } else { r.0 == UnlockState::Waking && r.1 == MutexAction::FutexWake(1) }),
            r.0 is Released ==> r.1 == MutexAction::Finish(pte_osResult::PTE_OS_OK),
            self is Handing && observed == MUTEX_UNLOCKED ==> (
                if self->Handing_round + 1 < SPIN_LIMIT {
                    r.0 == (UnlockState::Probing { round: (self->Handing_round + 1) as u32 })
                        && r.1 == MutexAction::Load
                }
                else { r.0 == UnlockState::Waking && r.1 == MutexAction::FutexWake(1) }),
    {
        let next = match self {
            UnlockState::Reading => {
                if observed == MUTEX_CONTENDED {
                    UnlockState::Releasing
                } else {
                    UnlockState::Swapping
                }
            },
            UnlockState::Releasing => UnlockState::Probing { round: 0 },
            UnlockState::Swapping => {
                if observed == MUTEX_LOCKED {
                    UnlockState::Released
                } else {
                    UnlockState::Probing { round: 0 }
                }
            },
            UnlockState::Probing { round } => {
                if observed != MUTEX_UNLOCKED {
                    UnlockState::Handing { round }
                } else {
                    Self::after_round(round)
                }
            },
            UnlockState::Handing { round } => {
                if observed != MUTEX_UNLOCKED {
                    UnlockState::Released
                } else {
                    Self::after_round(round)
                }
            },
            UnlockState::Waking => UnlockState::Released,
            UnlockState::Released => UnlockState::Released,
        };
        (next, next.pending())
    }

    fn after_round(round: u32) -> (r: UnlockState)
        requires
            round < SPIN_LIMIT,
        ensures
            r == unlock_after_round(round),
            unlock_wf(r),
    {
        if round + 1 < SPIN_LIMIT {
            UnlockState::Probing { round: round + 1 }
        } else {
            UnlockState::Waking
        }
    }

    /// The operation that this state asks for.
    pub fn pending(&self) -> (a: MutexAction)
        ensures
            a == unlock_pending(*self),
    {
        match self {
            UnlockState::Reading => MutexAction::Load,
            UnlockState::Releasing => MutexAction::Store(MUTEX_UNLOCKED),
            UnlockState::Swapping => MutexAction::Exchange(MUTEX_UNLOCKED),
            UnlockState::Probing { .. } => MutexAction::Load,
            UnlockState::Handing { .. } => MutexAction::CompareExchange {
                current: MUTEX_LOCKED,
                new: MUTEX_CONTENDED,
            },
            UnlockState::Waking => MutexAction::FutexWake(1),
            UnlockState::Released => MutexAction::Finish(pte_osResult::PTE_OS_OK),
        }
    }
}

} // verus!

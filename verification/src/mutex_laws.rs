use vstd::prelude::*;
use crate::result::pte_osResult;
use crate::mutex::{
    MutexAction, LockState, UnlockState, MUTEX_UNLOCKED, MUTEX_LOCKED, MUTEX_CONTENDED, SPIN_LIMIT,
    lock_pending, lock_wf, lock_next_state, unlock_pending, unlock_wf, unlock_next_state,
};

verus! {

/// What one operation does to the word, performed atomically: the value
/// reported and the word afterwards. A futex wait leaves the word as it is;
/// when it returns (woken, or spuriously) is up to the other threads, and a
/// lone thread whose wait finds the expected value never returns (see
/// `blocks_alone`).
pub open spec fn perform_atomic(word: i32, a: MutexAction) -> (i32, i32) {
    match a {
        MutexAction::Load => (word, word),
        MutexAction::Store(v) => (word, v),
        MutexAction::Exchange(v) => (word, v),
        MutexAction::CompareExchange { current, new } => (word, if word == current { new } else { word }),
        MutexAction::FutexWait(_) => (word, word),
        MutexAction::FutexWake(_) => (word, word),
        MutexAction::Finish(_) => (word, word),
    }
}

/// A lone thread that performs `a` on the word sleeps for ever.
pub open spec fn blocks_alone(word: i32, a: MutexAction) -> bool {
    match a {
        MutexAction::FutexWait(v) => word == v,
        _ => false,
    }
}

/// A lock run for at most `fuel` operations by a thread that is alone with the
/// word; it stops once taken or asleep for ever. Gives the state and the word.
pub open spec fn lock_alone(s: LockState, word: i32, fuel: nat) -> (LockState, i32)
    decreases fuel,
{
    if fuel == 0 || s is Acquired || blocks_alone(word, lock_pending(s)) {
        (s, word)
    } else {
        let (seen, after) = perform_atomic(word, lock_pending(s));
        lock_alone(lock_next_state(s, seen), after, (fuel - 1) as nat)
    }
}

/// An unlock run for at most `fuel` operations by a thread that is alone with
/// the word. Gives the state, the word and how many futex wakes were issued.
pub open spec fn unlock_alone(s: UnlockState, word: i32, fuel: nat) -> (UnlockState, i32, nat)
    decreases fuel,
{
    if fuel == 0 || s is Released {
        (s, word, 0)
    } else {
        let (seen, after) = perform_atomic(word, unlock_pending(s));
        let rest = unlock_alone(unlock_next_state(s, seen), after, (fuel - 1) as nat);
        let woke: nat = if unlock_pending(s) is FutexWake { 1 } else { 0 };
        (rest.0, rest.1, rest.2 + woke)
    }
}

/// The unlock state reached from `s` when the pending operations report the
/// values of `seen`, one after the other.
pub open spec fn unlock_after(s: UnlockState, seen: Seq<i32>) -> UnlockState
    decreases seen.len(),
{
    if seen.len() == 0 {
        s
    } else {
        unlock_after(unlock_next_state(s, seen[0]), seen.drop_first())
    }
}

/// An upper bound on the number of operations an unlock in state `s` still performs.
pub open spec fn unlock_budget(s: UnlockState) -> nat {
    match s {
        UnlockState::Reading => (2 * SPIN_LIMIT + 3) as nat,
        UnlockState::Releasing => (2 * SPIN_LIMIT + 2) as nat,
        UnlockState::Swapping => (2 * SPIN_LIMIT + 2) as nat,
        UnlockState::Probing { round } => (2 * (SPIN_LIMIT - round) + 1) as nat,
        UnlockState::Handing { round } => (2 * (SPIN_LIMIT - round)) as nat,
        UnlockState::Waking => 1,
        UnlockState::Released => 0,
    }
}

/// A lock ends only by an atomic operation that found the word unlocked and
/// left it held: the compare-exchange from unlocked to locked, or the
/// exchange that marks it contended.
pub proof fn law_lock_takes_only_a_free_word(s: LockState, observed: i32)
    requires
        lock_wf(s),
        !(s is Acquired),
        lock_next_state(s, observed) is Acquired,
    ensures
        observed == MUTEX_UNLOCKED,
        lock_pending(s) == (MutexAction::CompareExchange { current: MUTEX_UNLOCKED, new: MUTEX_LOCKED })
            || lock_pending(s) == MutexAction::Exchange(MUTEX_CONTENDED),
{
}

/// A lock never writes the unlocked value into the word.
pub proof fn law_lock_never_writes_unlocked(s: LockState)
    ensures
        match lock_pending(s) {
            MutexAction::Store(v) => v != MUTEX_UNLOCKED,
            MutexAction::Exchange(v) => v != MUTEX_UNLOCKED,
            MutexAction::CompareExchange { current: _, new } => new != MUTEX_UNLOCKED,
            _ => true,
        },
{
}

/// A lock makes at most `SPIN_LIMIT` compare-exchange attempts: each report in
/// the spinning phase either ends it or counts one more attempt, up to the limit.
pub proof fn law_lock_spin_is_bounded(s: LockState, observed: i32)
    requires
        lock_wf(s),
    ensures
        lock_wf(lock_next_state(s, observed)),
        s matches LockState::Spinning { attempts } ==> match lock_next_state(s, observed) {
            LockState::Spinning { attempts: a } => a == attempts + 1 && a <= SPIN_LIMIT,
            _ => true,
        },
        !(s is Spinning) ==> !(lock_next_state(s, observed) is Spinning),
{
}

/// An unlock finishes only after it has written the unlocked value into the
/// word: its first read is always followed by a store or an exchange of the
/// unlocked value, and it finishes only from a later state.
pub proof fn law_unlock_releases_before_it_finishes(s: UnlockState, observed: i32)
    ensures
        unlock_pending(unlock_next_state(UnlockState::Reading, observed)) == MutexAction::Store(MUTEX_UNLOCKED)
            || unlock_pending(unlock_next_state(UnlockState::Reading, observed)) == MutexAction::Exchange(MUTEX_UNLOCKED),
        unlock_next_state(s, observed) is Released ==> !(s is Reading) && !(s is Releasing),
{
}

/// Whatever the word holds at each step, an unlock finishes after at most
/// `2 * SPIN_LIMIT + 3` operations.
pub proof fn law_unlock_always_finishes(s: UnlockState, seen: Seq<i32>)
    requires
        unlock_wf(s),
        seen.len() >= unlock_budget(s),
    ensures
        unlock_after(s, seen) == UnlockState::Released,
    decreases seen.len(),
{
    if seen.len() > 0 && !(s is Released) {
        let next = unlock_next_state(s, seen[0]);
        assert(unlock_budget(next) < unlock_budget(s));
        law_unlock_always_finishes(next, seen.drop_first());
    } else if seen.len() > 0 {
        lemma_released_stays(seen);
    }
}

proof fn lemma_released_stays(seen: Seq<i32>)
    ensures
        unlock_after(UnlockState::Released, seen) == UnlockState::Released,
    decreases seen.len(),
{
    if seen.len() > 0 {
        lemma_released_stays(seen.drop_first());
    }
}

/// A thread alone with an unlocked mutex takes it with one compare-exchange,
/// which leaves the word locked.
pub proof fn law_lock_free_mutex_alone(fuel: nat)
    requires
        fuel >= 1,
    ensures
        lock_alone(LockState::Spinning { attempts: 1 }, MUTEX_UNLOCKED, fuel)
            == (LockState::Acquired, MUTEX_LOCKED),
{
    assert(lock_alone(LockState::Acquired, MUTEX_LOCKED, (fuel - 1) as nat)
        == (LockState::Acquired, MUTEX_LOCKED));
}

proof fn lemma_lock_spins_on_held_word(attempts: u32, word: i32, fuel: nat)
    requires
        1 <= attempts <= SPIN_LIMIT,
        word != MUTEX_UNLOCKED,
    ensures
        !(lock_alone(LockState::Spinning { attempts }, word, fuel).0 is Acquired),
        fuel >= SPIN_LIMIT - attempts + 3 ==> lock_alone(LockState::Spinning { attempts }, word, fuel)
            == (LockState::Sleeping, MUTEX_CONTENDED),
    decreases fuel,
{
    if fuel > 0 {
        let f1 = (fuel - 1) as nat;
        let s = LockState::Spinning { attempts };
        assert(perform_atomic(word, lock_pending(s)) == (word, word));
        assert(lock_alone(s, word, fuel) == lock_alone(lock_next_state(s, word), word, f1));
        if attempts < SPIN_LIMIT {
            lemma_lock_spins_on_held_word((attempts + 1) as u32, word, f1);
        } else if word == MUTEX_LOCKED {
            lemma_lock_exchanges_held_word(word, f1);
        } else if word == MUTEX_CONTENDED {
            assert(lock_alone(LockState::Sleeping, word, f1) == (LockState::Sleeping, word));
        } else if f1 > 0 {
            assert(lock_alone(LockState::Sleeping, word, f1)
                == lock_alone(LockState::Exchanging, word, (f1 - 1) as nat));
            lemma_lock_exchanges_held_word(word, (f1 - 1) as nat);
        }
    }
}

proof fn lemma_lock_exchanges_held_word(word: i32, fuel: nat)
    requires
        word != MUTEX_UNLOCKED,
    ensures
        !(lock_alone(LockState::Exchanging, word, fuel).0 is Acquired),
        fuel >= 1 ==> lock_alone(LockState::Exchanging, word, fuel)
            == (LockState::Sleeping, MUTEX_CONTENDED),
    decreases fuel,
{
    if fuel > 0 {
        let f1 = (fuel - 1) as nat;
        assert(lock_alone(LockState::Sleeping, MUTEX_CONTENDED, f1)
            == (LockState::Sleeping, MUTEX_CONTENDED));
    }
}

/// A thread alone with a mutex that someone else holds never takes it: after
/// its spin attempts it marks the word contended and goes to sleep on it.
pub proof fn law_lock_held_mutex_alone(word: i32, fuel: nat)
    requires
        word != MUTEX_UNLOCKED,
    ensures
        !(lock_alone(LockState::Spinning { attempts: 1 }, word, fuel).0 is Acquired),
        fuel >= SPIN_LIMIT + 2 ==> lock_alone(LockState::Spinning { attempts: 1 }, word, fuel)
            == (LockState::Sleeping, MUTEX_CONTENDED),
{
    lemma_lock_spins_on_held_word(1, word, fuel);
}

/// A thread alone with a mutex that it holds without sleepers releases it with
/// a read and an exchange, and wakes nobody.
pub proof fn law_unlock_uncontended_alone(fuel: nat)
    requires
        fuel >= 2,
    ensures
        unlock_alone(UnlockState::Reading, MUTEX_LOCKED, fuel) == (UnlockState::Released, MUTEX_UNLOCKED, 0nat),
{
    let f2 = (fuel - 2) as nat;
    assert(unlock_alone(UnlockState::Released, MUTEX_UNLOCKED, f2) == (UnlockState::Released, MUTEX_UNLOCKED, 0nat));
    assert(unlock_alone(UnlockState::Swapping, MUTEX_LOCKED, (fuel - 1) as nat)
        == (UnlockState::Released, MUTEX_UNLOCKED, 0nat));
}

proof fn lemma_unlock_probes_free_word(round: u32, fuel: nat)
    requires
        round < SPIN_LIMIT,
        fuel >= SPIN_LIMIT - round + 1,
    ensures
        unlock_alone(UnlockState::Probing { round }, MUTEX_UNLOCKED, fuel)
            == (UnlockState::Released, MUTEX_UNLOCKED, 1nat),
    decreases SPIN_LIMIT - round,
{
    let f1 = (fuel - 1) as nat;
    if round + 1 < SPIN_LIMIT {
        lemma_unlock_probes_free_word((round + 1) as u32, f1);
    } else {
        let f2 = (f1 - 1) as nat;
        assert(unlock_alone(UnlockState::Released, MUTEX_UNLOCKED, f2)
            == (UnlockState::Released, MUTEX_UNLOCKED, 0nat));
        assert(unlock_alone(UnlockState::Waking, MUTEX_UNLOCKED, f1)
            == (UnlockState::Released, MUTEX_UNLOCKED, 1nat));
    }
}

/// A thread alone with a mutex that it holds with the word marked contended
/// releases it with a store, looks `SPIN_LIMIT` times in vain for a new
/// holder, and wakes one sleeper.
pub proof fn law_unlock_contended_alone(fuel: nat)
    requires
        fuel >= 2 * SPIN_LIMIT + 3,
    ensures
        unlock_alone(UnlockState::Reading, MUTEX_CONTENDED, fuel) == (UnlockState::Released, MUTEX_UNLOCKED, 1nat),
{
    lemma_unlock_probes_free_word(0, (fuel - 2) as nat);
    assert(unlock_alone(UnlockState::Releasing, MUTEX_CONTENDED, (fuel - 1) as nat)
        == (UnlockState::Released, MUTEX_UNLOCKED, 1nat));
}

/// A lock followed by an unlock, by a thread alone with an unlocked mutex,
/// leaves the word unlocked again and wakes nobody.
pub proof fn law_lock_then_unlock_restores_word(lock_fuel: nat, unlock_fuel: nat)
    requires
        lock_fuel >= 1,
        unlock_fuel >= 2,
    ensures
        ({
            let (ls, w) = lock_alone(LockState::Spinning { attempts: 1 }, MUTEX_UNLOCKED, lock_fuel);
            &&& ls is Acquired
            &&& unlock_alone(UnlockState::Reading, w, unlock_fuel) == (UnlockState::Released, MUTEX_UNLOCKED, 0nat)
        }),
{
    law_lock_free_mutex_alone(lock_fuel);
    law_unlock_uncontended_alone(unlock_fuel);
}

/// A thread that uses the mutex: taking it, or releasing it after it took it.
#[derive(Clone, Copy, Debug, PartialEq, Eq, Structural)]
pub enum Participant {
    Locking(LockState),
    Unlocking(UnlockState),
}

/// The participant holds the mutex: it has taken it and has not yet written
/// the unlocked value back.
pub open spec fn holds(p: Participant) -> bool {
    match p {
        Participant::Locking(s) => s is Acquired,
        Participant::Unlocking(s) => s is Reading || s is Releasing || s is Swapping,
    }
}

/// One atomic move of a participant on the shared word: it performs its
/// pending operation and takes the reported value.
pub open spec fn participant_move(p: Participant, word: i32) -> (Participant, i32) {
    match p {
        Participant::Locking(s) => {
            let (seen, after) = perform_atomic(word, lock_pending(s));
            (Participant::Locking(lock_next_state(s, seen)), after)
        },
        Participant::Unlocking(s) => {
            let (seen, after) = perform_atomic(word, unlock_pending(s));
            (Participant::Unlocking(unlock_next_state(s, seen)), after)
        },
    }
}

/// Mutual exclusion over the participants `ps` sharing the word: at most one
/// of them holds the mutex, and while one does the word is not unlocked.
pub open spec fn exclusive(ps: Seq<Participant>, word: i32) -> bool {
    &&& forall|i: int, j: int|
        0 <= i < ps.len() && 0 <= j < ps.len() && i != j && #[trigger] holds(ps[i]) ==> !#[trigger] holds(ps[j])
    &&& forall|i: int| 0 <= i < ps.len() && #[trigger] holds(ps[i]) ==> word != MUTEX_UNLOCKED
}

/// Threads that have all just begun to lock an unlocked mutex exclude each other.
pub proof fn law_exclusive_at_start(n: nat)
    ensures
        exclusive(Seq::new(n, |i: int| Participant::Locking(LockState::Spinning { attempts: 1 })), MUTEX_UNLOCKED),
{
}

/// Mutual exclusion is kept by every atomic move of any participant, however
/// the moves of the threads interleave: a locker takes the mutex only from an
/// unlocked word, which no holder leaves, and only the holder writes the
/// unlocked value, giving up the mutex as it does.
pub proof fn law_move_keeps_exclusion(ps: Seq<Participant>, word: i32, k: int)
    requires
        exclusive(ps, word),
        0 <= k < ps.len(),
    ensures
        ({
            let (p, w) = participant_move(ps[k], word);
            exclusive(ps.update(k, p), w)
        }),
{
    let (p, w) = participant_move(ps[k], word);
    let qs = ps.update(k, p);
    lemma_move_word(ps[k], word);
    if holds(p) && !holds(ps[k]) {
        assert forall|j: int| 0 <= j < ps.len() && j != k implies !holds(ps[j]) by {
            if holds(ps[j]) {
                assert(word != MUTEX_UNLOCKED);
            }
        }
    }
    if !holds(ps[k]) {
        assert forall|j: int| 0 <= j < ps.len() && j != k && holds(ps[j]) implies w != MUTEX_UNLOCKED by {
            assert(word != MUTEX_UNLOCKED);
        }
    }
    assert forall|i: int, j: int|
        0 <= i < qs.len() && 0 <= j < qs.len() && i != j && #[trigger] holds(qs[i]) implies !#[trigger] holds(qs[j]) by {
        if i != k && j != k {
            assert(qs[i] == ps[i] && qs[j] == ps[j]);
        }
    }
    assert forall|i: int| 0 <= i < qs.len() && #[trigger] holds(qs[i]) implies w != MUTEX_UNLOCKED by {
        if i != k {
            assert(qs[i] == ps[i]);
            if holds(ps[k]) {
                assert(!holds(ps[i]));
            }
        } else if holds(ps[k]) {
            assert(word != MUTEX_UNLOCKED);
        }
    }
}

/// How one move changes the word, as far as mutual exclusion is concerned: a
/// participant that does not hold the mutex never unlocks a locked word, and it
/// comes to hold the mutex only by finding the word unlocked and locking it; a
/// holder that still holds after its move leaves a locked word locked.
proof fn lemma_move_word(p: Participant, word: i32)
    ensures
        ({
            let (q, w) = participant_move(p, word);
            &&& !holds(p) && word != MUTEX_UNLOCKED ==> w != MUTEX_UNLOCKED
            &&& !holds(p) && holds(q) ==> word == MUTEX_UNLOCKED && w != MUTEX_UNLOCKED
            &&& holds(p) && holds(q) && word != MUTEX_UNLOCKED ==> w != MUTEX_UNLOCKED
        }),
{
}

/// The holder that begins to release keeps exclusion.
pub proof fn law_begin_unlock_keeps_exclusion(ps: Seq<Participant>, word: i32, k: int)
    requires
        exclusive(ps, word),
        0 <= k < ps.len(),
        ps[k] == Participant::Locking(LockState::Acquired),
    ensures
        exclusive(ps.update(k, Participant::Unlocking(UnlockState::Reading)), word),
{
    let qs = ps.update(k, Participant::Unlocking(UnlockState::Reading));
    assert forall|i: int, j: int|
        0 <= i < qs.len() && 0 <= j < qs.len() && i != j && #[trigger] holds(qs[i]) implies !#[trigger] holds(qs[j]) by {
        assert(holds(qs[i]) == holds(ps[i]) && holds(qs[j]) == holds(ps[j]));
    }
    assert forall|i: int| 0 <= i < qs.len() && #[trigger] holds(qs[i]) implies word != MUTEX_UNLOCKED by {
        assert(holds(ps[i]));
    }
}

/// A thread that does not hold the mutex and begins to lock it keeps exclusion.
pub proof fn law_begin_lock_keeps_exclusion(ps: Seq<Participant>, word: i32, k: int)
    requires
        exclusive(ps, word),
        0 <= k < ps.len(),
        !holds(ps[k]),
    ensures
        exclusive(ps.update(k, Participant::Locking(LockState::Spinning { attempts: 1 })), word),
{
    let qs = ps.update(k, Participant::Locking(LockState::Spinning { attempts: 1 }));
    assert forall|i: int, j: int|
        0 <= i < qs.len() && 0 <= j < qs.len() && i != j && #[trigger] holds(qs[i]) implies !#[trigger] holds(qs[j]) by {
        assert(holds(qs[i]) ==> holds(ps[i]));
        assert(holds(qs[j]) ==> holds(ps[j]));
    }
    assert forall|i: int| 0 <= i < qs.len() && #[trigger] holds(qs[i]) implies word != MUTEX_UNLOCKED by {
        assert(holds(ps[i]));
    }
}

/// Under mutual exclusion no two threads have both finished locking.
pub proof fn law_no_two_holders(ps: Seq<Participant>, word: i32, i: int, j: int)
    requires
        exclusive(ps, word),
        0 <= i < ps.len(),
        0 <= j < ps.len(),
        i != j,
        ps[i] == Participant::Locking(LockState::Acquired),
    ensures
        ps[j] != Participant::Locking(LockState::Acquired),
{
    assert(holds(ps[i]));
}

/// A locker takes the mutex exactly when one of its acquiring operations (the
/// compare-exchange of any spin round, or the exchange after waking) finds the
/// word unlocked; it never takes it otherwise.
pub proof fn law_lock_takes_a_free_word_in_any_round(s: LockState, observed: i32)
    requires
        lock_wf(s),
        s is Spinning || s is Exchanging,
    ensures
        lock_next_state(s, observed) is Acquired <==> observed == MUTEX_UNLOCKED,
        observed == MUTEX_UNLOCKED ==> lock_pending(lock_next_state(s, observed))
            == MutexAction::Finish(pte_osResult::PTE_OS_OK),
{
}

/// A lone thread whose `attempts`-th compare-exchange finds the word unlocked
/// takes the mutex with it and leaves the word locked, whatever the round.
pub proof fn law_lock_free_word_taken_in_any_round(attempts: u32, fuel: nat)
    requires
        1 <= attempts <= SPIN_LIMIT,
        fuel >= 1,
    ensures
        lock_alone(LockState::Spinning { attempts }, MUTEX_UNLOCKED, fuel) == (LockState::Acquired, MUTEX_LOCKED),
{
    assert(lock_alone(LockState::Acquired, MUTEX_LOCKED, (fuel - 1) as nat)
        == (LockState::Acquired, MUTEX_LOCKED));
}

/// An unlock ends exactly when its release exchange finds the word held
/// without sleepers, when a hand-over compare-exchange finds a new holder (and
/// marks it contended), or after its futex wake. In particular a release that
/// finds sleepers, or a hand-over that finds the word free, does not end it.
pub proof fn law_unlock_ends_only_without_sleepers_left(s: UnlockState, observed: i32)
    requires
        unlock_wf(s),
        !(s is Released),
    ensures
        unlock_next_state(s, observed) is Released <==> (s is Swapping && observed == MUTEX_LOCKED)
            || (s is Handing && observed != MUTEX_UNLOCKED) || s is Waking,
{
}

/// An unlock in handing-over round `round` whose compare-exchange and all
/// later reads find the word unlocked has handed the mutex to nobody: it goes
/// on to the futex wake of one sleeper, with no way to end before it.
pub proof fn law_unlock_wakes_when_no_holder_found(round: u32, seen: Seq<i32>)
    requires
        round < SPIN_LIMIT,
        seen.len() == SPIN_LIMIT - round,
        forall|i: int| 0 <= i < seen.len() ==> seen[i] == MUTEX_UNLOCKED,
    ensures
        unlock_after(UnlockState::Handing { round }, seen) == UnlockState::Waking,
        unlock_pending(unlock_after(UnlockState::Handing { round }, seen)) == MutexAction::FutexWake(1),
{
    let rest = seen.drop_first();
    assert(seen[0] == MUTEX_UNLOCKED);
    assert forall|i: int| 0 <= i < rest.len() implies rest[i] == MUTEX_UNLOCKED by {
        assert(rest[i] == seen[i + 1]);
    }
    if round + 1 < SPIN_LIMIT {
        lemma_probes_reach_wake((round + 1) as u32, rest);
    } else {
        assert(rest.len() == 0);
        assert(unlock_after(UnlockState::Waking, rest) == UnlockState::Waking);
    }
}

proof fn lemma_probes_reach_wake(round: u32, seen: Seq<i32>)
    requires
        round < SPIN_LIMIT,
        seen.len() == SPIN_LIMIT - round,
        forall|i: int| 0 <= i < seen.len() ==> seen[i] == MUTEX_UNLOCKED,
    ensures
        unlock_after(UnlockState::Probing { round }, seen) == UnlockState::Waking,
    decreases SPIN_LIMIT - round,
{
    let rest = seen.drop_first();
    assert(seen[0] == MUTEX_UNLOCKED);
    assert forall|i: int| 0 <= i < rest.len() implies rest[i] == MUTEX_UNLOCKED by {
        assert(rest[i] == seen[i + 1]);
    }
    if round + 1 < SPIN_LIMIT {
        lemma_probes_reach_wake((round + 1) as u32, rest);
    } else {
        assert(rest.len() == 0);
        assert(unlock_after(UnlockState::Waking, rest) == UnlockState::Waking);
    }
}

} // verus!

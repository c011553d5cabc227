use pte_redox::mutex::{
    LockState, MutexAction, UnlockState, MUTEX_CONTENDED, MUTEX_LOCKED, MUTEX_UNLOCKED, SPIN_LIMIT,
};
use pte_redox::result::pte_osResult;

/// Performs `a` on `word` as the only thread; `None` when the thread would sleep for ever.
fn perform(word: &mut i32, a: MutexAction) -> Option<i32> {
    let old = *word;
    match a {
        MutexAction::Load => {}
        MutexAction::Store(v) | MutexAction::Exchange(v) => *word = v,
        MutexAction::CompareExchange { current, new } => {
            if old == current {
                *word = new;
            }
        }
        MutexAction::FutexWait(v) => {
            if old == v {
                return None;
            }
        }
        MutexAction::FutexWake(_) | MutexAction::Finish(_) => {}
    }
    Some(old)
}

fn lock_alone(word: &mut i32) -> (Vec<MutexAction>, LockState) {
    let (mut s, mut a) = LockState::start();
    let mut trace = vec![a];
    loop {
        if let MutexAction::Finish(_) = a {
            return (trace, s);
        }
        match perform(word, a) {
            None => return (trace, s),
            Some(seen) => {
                let (s2, a2) = s.step(seen);
                s = s2;
                a = a2;
                trace.push(a);
            }
        }
    }
}

fn unlock_alone(word: &mut i32) -> Vec<MutexAction> {
    let (mut s, mut a) = UnlockState::start();
    let mut trace = vec![a];
    while !matches!(a, MutexAction::Finish(_)) {
        let seen = perform(word, a).expect("unlock never sleeps");
        let (s2, a2) = s.step(seen);
        s = s2;
        a = a2;
        trace.push(a);
    }
    trace
}

#[test]
fn lock_free_mutex_takes_it_at_once() {
    let mut word = MUTEX_UNLOCKED;
    let (trace, s) = lock_alone(&mut word);
    assert_eq!(
        trace,
        vec![
            MutexAction::CompareExchange { current: 0, new: 1 },
            MutexAction::Finish(pte_osResult::PTE_OS_OK)
        ]
    );
    assert_eq!(s, LockState::Acquired);
    assert_eq!(word, MUTEX_LOCKED);
}

#[test]
fn lock_held_mutex_spins_then_sleeps() {
    let mut word = MUTEX_LOCKED;
    let (trace, s) = lock_alone(&mut word);
    assert_eq!(s, LockState::Sleeping);
    assert_eq!(word, MUTEX_CONTENDED);
    let cas = trace.iter().filter(|a| matches!(a, MutexAction::CompareExchange { .. })).count();
    assert_eq!(cas, SPIN_LIMIT as usize);
    assert_eq!(trace[trace.len() - 2], MutexAction::Exchange(2));
    assert_eq!(trace[trace.len() - 1], MutexAction::FutexWait(2));
}

#[test]
fn lock_contended_mutex_sleeps_without_exchange() {
    let mut word = MUTEX_CONTENDED;
    let (trace, s) = lock_alone(&mut word);
    assert_eq!(s, LockState::Sleeping);
    assert_eq!(trace.len(), SPIN_LIMIT as usize + 1);
    assert_eq!(trace[trace.len() - 1], MutexAction::FutexWait(2));
}

#[test]
fn lock_wakes_and_takes_released_word() {
    let (s, _) = LockState::start();
    let mut s = s;
    for _ in 0..SPIN_LIMIT {
        s = s.step(MUTEX_CONTENDED).0;
    }
    assert_eq!(s, LockState::Sleeping);
    let (s, a) = s.step(0);
    assert_eq!((s, a), (LockState::Exchanging, MutexAction::Exchange(2)));
    let (s, a) = s.step(MUTEX_UNLOCKED);
    assert_eq!((s, a), (LockState::Acquired, MutexAction::Finish(pte_osResult::PTE_OS_OK)));
}

#[test]
fn unlock_uncontended_mutex() {
    let mut word = MUTEX_LOCKED;
    let trace = unlock_alone(&mut word);
    assert_eq!(
        trace,
        vec![
            MutexAction::Load,
            MutexAction::Exchange(0),
            MutexAction::Finish(pte_osResult::PTE_OS_OK)
        ]
    );
    assert_eq!(word, MUTEX_UNLOCKED);
}

#[test]
fn unlock_contended_mutex_wakes_one() {
    let mut word = MUTEX_CONTENDED;
    let trace = unlock_alone(&mut word);
    assert_eq!(word, MUTEX_UNLOCKED);
    assert_eq!(trace.len(), 2 * 1 + SPIN_LIMIT as usize + 2);
    assert_eq!(trace[1], MutexAction::Store(0));
    let wakes = trace.iter().filter(|a| matches!(a, MutexAction::FutexWake(1))).count();
    assert_eq!(wakes, 1);
}

#[test]
fn unlock_hands_over_to_new_holder() {
    let (s, _) = UnlockState::start();
    let (s, a) = s.step(MUTEX_CONTENDED);
    assert_eq!(a, MutexAction::Store(0));
    let (s, a) = s.step(0);
    assert_eq!(a, MutexAction::Load);
    let (s, a) = s.step(MUTEX_LOCKED);
    assert_eq!(a, MutexAction::CompareExchange { current: 1, new: 2 });
    let (s, a) = s.step(MUTEX_LOCKED);
    assert_eq!((s, a), (UnlockState::Released, MutexAction::Finish(pte_osResult::PTE_OS_OK)));
}

#[test]
fn unlock_of_free_word_probes_then_wakes() {
    let mut word = MUTEX_UNLOCKED;
    let trace = unlock_alone(&mut word);
    assert_eq!(trace[1], MutexAction::Exchange(0));
    assert_eq!(trace[trace.len() - 2], MutexAction::FutexWake(1));
    assert_eq!(word, MUTEX_UNLOCKED);
}

#[test]
fn lock_then_unlock_restores_word() {
    let mut word = MUTEX_UNLOCKED;
    let (_, s) = lock_alone(&mut word);
    assert_eq!(s, LockState::Acquired);
    let trace = unlock_alone(&mut word);
    assert_eq!(word, MUTEX_UNLOCKED);
    assert!(!trace.iter().any(|a| matches!(a, MutexAction::FutexWake(_))));
}

#[test]
fn unlock_finishes_whatever_it_sees() {
    for seen in [0, 1, 2, 7, -1] {
        let (mut s, mut a) = UnlockState::start();
        let mut n = 0;
        while !matches!(a, MutexAction::Finish(_)) {
            let r = s.step(seen);
            s = r.0;
            a = r.1;
            n += 1;
        }
        assert!(n <= 2 * SPIN_LIMIT as usize + 3);
    }
}

#[test]
fn pending_matches_returned_action() {
    let (s, a) = LockState::start();
    assert_eq!(s.pending(), a);
    let (s, a) = UnlockState::start();
    assert_eq!(s.pending(), a);
}

/// Performs `a` atomically; a futex wait returns at once, as after a spurious wake-up.
fn perform_shared(word: &mut i32, a: MutexAction) -> i32 {
    let old = *word;
    match a {
        MutexAction::Store(v) | MutexAction::Exchange(v) => *word = v,
        MutexAction::CompareExchange { current, new } => {
            if old == current {
                *word = new;
            }
        }
        _ => {}
    }
    old
}

#[test]
fn two_lockers_exclude_each_other() {
    let mut word = MUTEX_UNLOCKED;
    let (mut a, mut act_a) = LockState::start();
    let (mut b, mut act_b) = LockState::start();
    // Interleave the two lockers one operation at a time.
    for _ in 0..400 {
        if !matches!(act_a, MutexAction::Finish(_)) {
            let seen = perform_shared(&mut word, act_a);
            let r = a.step(seen);
            a = r.0;
            act_a = r.1;
        }
        if !matches!(act_b, MutexAction::Finish(_)) {
            let seen = perform_shared(&mut word, act_b);
            let r = b.step(seen);
            b = r.0;
            act_b = r.1;
        }
        assert!(!(a == LockState::Acquired && b == LockState::Acquired));
    }
    assert_eq!(a, LockState::Acquired);
    assert_ne!(b, LockState::Acquired);
    assert_eq!(word, MUTEX_CONTENDED);
    // The holder releases; the waiter then takes the mutex.
    let (mut u, mut act_u) = UnlockState::start();
    while !matches!(act_u, MutexAction::Finish(_)) {
        let seen = perform_shared(&mut word, act_u);
        let r = u.step(seen);
        u = r.0;
        act_u = r.1;
    }
    for _ in 0..10 {
        if !matches!(act_b, MutexAction::Finish(_)) {
            let seen = perform_shared(&mut word, act_b);
            let r = b.step(seen);
            b = r.0;
            act_b = r.1;
        }
    }
    assert_eq!(b, LockState::Acquired);
    assert_ne!(word, MUTEX_UNLOCKED);
}

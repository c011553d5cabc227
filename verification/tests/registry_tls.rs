use pte_redox::result::pte_osResult;
use pte_redox::thread::{
    default_thread_priority, max_thread_priority, min_thread_priority, os_init, set_thread_priority,
    sleep_time, thread_priority, clone_role, CloneRole, ThreadRegistry,
};
use pte_redox::tls::{locals, ThreadLocals, TlsKeys};
use pte_redox::atomic::{decremented, incremented};

#[test]
fn result_codes() {
    assert_eq!(pte_osResult::PTE_OS_OK.code(), 0);
    assert_eq!(pte_osResult::PTE_OS_NO_RESOURCES.code(), 1);
    assert_eq!(pte_osResult::PTE_OS_GENERAL_FAILURE.code(), 2);
    assert_eq!(pte_osResult::PTE_OS_TIMEOUT.code(), 3);
    assert_eq!(pte_osResult::PTE_OS_INTERRUPTED.code(), 4);
    assert_eq!(pte_osResult::PTE_OS_INVALID_PARAM.code(), 5);
}

#[test]
fn start_after_create_and_delete() {
    let mut reg = ThreadRegistry::new();
    assert_eq!(reg.start(7), (pte_osResult::PTE_OS_GENERAL_FAILURE, None));
    reg.register(7, 0x1000);
    assert_eq!(reg.start(7), (pte_osResult::PTE_OS_OK, Some(0x1000)));
    assert_eq!(reg.start(8), (pte_osResult::PTE_OS_GENERAL_FAILURE, None));
    assert_eq!(reg.delete(7), (pte_osResult::PTE_OS_OK, Some(0x1000)));
    assert_eq!(reg.start(7), (pte_osResult::PTE_OS_GENERAL_FAILURE, None));
    assert_eq!(reg.delete(7), (pte_osResult::PTE_OS_OK, None));
}

#[test]
fn clone_result_gives_role() {
    assert_eq!(clone_role(0), CloneRole::Child);
    assert_eq!(clone_role(42), CloneRole::Parent { handle: 42 });
}

#[test]
fn recreated_handle_uses_latest_mutex() {
    let mut reg = ThreadRegistry::new();
    reg.register(3, 0x10);
    reg.register(4, 0x20);
    reg.register(3, 0x30);
    assert_eq!(reg.start(3), (pte_osResult::PTE_OS_OK, Some(0x30)));
    assert_eq!(reg.start(4), (pte_osResult::PTE_OS_OK, Some(0x20)));
}

#[test]
fn tls_read_after_store() {
    let mut locals = ThreadLocals::new();
    assert_eq!(locals.get_value(5), 0);
    assert_eq!(locals.set_value(5, 0xdead), pte_osResult::PTE_OS_OK);
    assert_eq!(locals.get_value(5), 0xdead);
    assert_eq!(locals.get_value(6), 0);
    locals.set_value(5, 0xbeef);
    locals.set_value(6, 1);
    assert_eq!(locals.get_value(5), 0xbeef);
    assert_eq!(locals.get_value(6), 1);
}

#[test]
fn tls_key_counter() {
    let mut keys = TlsKeys::new();
    assert_eq!(keys.allocate(), pte_osResult::PTE_OS_OK);
    assert_eq!(keys.allocate(), pte_osResult::PTE_OS_OK);
    assert_eq!(keys.release(3), pte_osResult::PTE_OS_OK);
}

#[test]
fn sleep_time_values() {
    assert_eq!(sleep_time(0), (0, 0));
    assert_eq!(sleep_time(1500), (1, 500_000));
    assert_eq!(sleep_time(999), (0, 999_000));
    assert_eq!(sleep_time(2000), (2, 0));
    assert_eq!(sleep_time(u32::MAX), (4_294_967, -1000));
    assert_eq!(sleep_time(0x8000_0000), (2_147_483, -648_000));
}

#[test]
fn priorities_and_init() {
    assert_eq!(os_init(), pte_osResult::PTE_OS_OK);
    assert_eq!(thread_priority(12), 1);
    assert_eq!(set_thread_priority(12, 40), pte_osResult::PTE_OS_OK);
    assert_eq!(min_thread_priority(), 1);
    assert_eq!(max_thread_priority(), 1);
    assert_eq!(default_thread_priority(), 1);
}

#[test]
fn counter_arithmetic() {
    assert_eq!(decremented(1), 0);
    assert_eq!(decremented(0), -1);
    assert_eq!(incremented(-1), 0);
    assert_eq!(incremented(41), 42);
}

#[test]
fn locals_created_once_and_kept() {
    let mut slot: Option<ThreadLocals> = None;
    assert_eq!(locals(&mut slot).get_value(7), 0);
    assert!(slot.is_some());
    locals(&mut slot).set_value(7, 0x30);
    assert_eq!(locals(&mut slot).get_value(7), 0x30);
    assert_eq!(slot.as_ref().unwrap().get_value(7), 0x30);
}

use rustux_syscalls::err_to_ret;
use rustux_syscalls::object_wait::{
    signal, sys_object_wait_async_impl, sys_object_wait_many_impl, sys_object_wait_one_impl, wait_options, WaitItem,
    WaitQueue, WaitQueueRegistry, WaitStateObserver, MAX_WAIT_HANDLE_COUNT,
};
use rustux_syscalls::status::{RX_ERR_CANCELED, RX_ERR_OUT_OF_RANGE, RX_ERR_TIMED_OUT};
use rustux_syscalls::usercopy::UserMemory;

#[test]
fn test_constants() {
    assert_eq!(MAX_WAIT_HANDLE_COUNT, 16);
    assert_eq!(signal::HANDLE_CLOSED, 0x00800000);
    assert_eq!(signal::USER_0, 0x01000000);
    assert_eq!(signal::USER_ALL, 0xFF000000);
}

#[test]
fn test_wait_options() {
    assert_eq!(wait_options::WAIT_ANY, 0x00);
    assert_eq!(wait_options::WAIT_ALL, 0x01);
    assert_eq!(wait_options::SIGNAL_EDGE, 0x02);
}

#[test]
fn test_wait_item_size() {
    assert!(core::mem::size_of::<WaitItem>() >= 16);
}

#[test]
fn test_wait_state_observer() {
    let mut observer = WaitStateObserver::new();
    assert!(!observer.initialized);
    assert!(observer.begin(123, 0x12345678).is_ok());
    assert!(observer.initialized);
    assert_eq!(observer.handle, 123);
    assert_eq!(observer.signals, 0x12345678);
    observer.signal(0x1234);
    assert_eq!(observer.observed, 0x1234);
    let observed = observer.end();
    assert_eq!(observed, 0x1234);
    assert!(!observer.initialized);
}

#[test]
fn test_wait_many_validation() {
    let mut mem = UserMemory::new(0x1000, 64);
    let result = sys_object_wait_many_impl(&mut mem, 0, 0, 0);
    assert!(result < 0);
    assert_eq!(result, err_to_ret(RX_ERR_TIMED_OUT));
    let result = sys_object_wait_many_impl(&mut mem, 0, MAX_WAIT_HANDLE_COUNT + 1, 0);
    assert!(result < 0);
    assert_eq!(result, err_to_ret(RX_ERR_OUT_OF_RANGE));
}

#[test]
fn test_wait_one_invalid_handle() {
    let mut reg = WaitQueueRegistry::new();
    let mut mem = UserMemory::new(0x1000, 64);
    let result = sys_object_wait_one_impl(&mut reg, &mut mem, 1, 0, 0x12345678, 0, 0);
    assert!(result < 0);
}

#[test]
fn test_wait_async_invalid_handles() {
    let result = sys_object_wait_async_impl(0, 1, 0, 0x12345678, 0);
    assert!(result < 0);
    let result = sys_object_wait_async_impl(1, 0, 0, 0x12345678, 0);
    assert!(result < 0);
    assert_eq!(sys_object_wait_async_impl(1, 1, 0, 0x12345678, 0), 0);
}

#[test]
fn wait_one_reports_observed_signals() {
    let mut reg = WaitQueueRegistry::new();
    let mut mem = UserMemory::new(0x1000, 64);
    assert_eq!(sys_object_wait_one_impl(&mut reg, &mut mem, 1, 5, signal::USER_0, 0, 0x1008), 0);
    assert_eq!(&mem.bytes[8..16], &signal::USER_0.to_le_bytes());
    assert_eq!(sys_object_wait_one_impl(&mut reg, &mut mem, 1, 5, signal::HANDLE_CLOSED, 0, 0), err_to_ret(RX_ERR_CANCELED));
}

#[test]
fn wait_many_sets_pending_to_waited_signals() {
    let mut mem = UserMemory::new(0x1000, 64);
    mem.bytes[0] = 3;
    mem.bytes[8..16].copy_from_slice(&signal::USER_1.to_le_bytes());
    mem.bytes[24] = 4;
    mem.bytes[32..40].copy_from_slice(&signal::USER_2.to_le_bytes());
    assert_eq!(sys_object_wait_many_impl(&mut mem, 0x1000, 2, 0), 0);
    assert_eq!(&mem.bytes[16..24], &signal::USER_1.to_le_bytes());
    assert_eq!(&mem.bytes[40..48], &signal::USER_2.to_le_bytes());
}

#[test]
fn signal_wakes_released_threads_in_queue_order() {
    let mut q = WaitQueue::new();
    assert!(q.wait(11, 0x1, 0, 0).is_ok());
    assert!(q.wait(12, 0x2, 0, 0).is_ok());
    assert!(q.wait(13, 0x3, 0, 0).is_ok());
    let mut woken: Vec<usize> = Vec::new();
    assert_eq!(q.signal(0x1, &mut woken), 2);
    assert_eq!(woken, vec![11, 13]);
    assert_eq!(q.count(), 1);
    assert_eq!(q.timeout_all(&mut woken), 1);
    assert_eq!(woken, vec![11, 13, 12]);
    let mut reg = WaitQueueRegistry::new();
    assert!(reg.wait_on(5, 21, 0x4, 0, 0).is_ok());
    assert!(reg.wait_on(5, 22, 0x8, 0, 0).is_ok());
    assert_eq!(reg.signal(5, 0x8), 1);
    assert_eq!(reg.ready, vec![22]);
}

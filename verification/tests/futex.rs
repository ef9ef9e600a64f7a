use rustux_syscalls::err_to_ret;
use rustux_syscalls::futex::{
    futex_requeue, futex_wake, sys_futex_get_owner_impl, sys_futex_wait_impl, FutexContext, FutexState,
    FUTEX_OWNER_INVALID,
};
use rustux_syscalls::status::{RX_ERR_INVALID_ARGS, RX_ERR_NOT_SUPPORTED};
use rustux_syscalls::usercopy::UserMemory;

#[test]
fn test_futex_state() {
    let mut state = FutexState::new();
    assert_eq!(state.get_owner(), FUTEX_OWNER_INVALID);
    state.set_owner(12345);
    assert_eq!(state.get_owner(), 12345);
}

#[test]
fn test_futex_context_count() {
    let mut ctx = FutexContext::new();
    assert_eq!(ctx.count(), 0);
    let _ = ctx.get_or_create(0x1000);
    assert_eq!(ctx.count(), 1);
    let _ = ctx.get_or_create(0x1000);
    assert_eq!(ctx.count(), 1);
    let _ = ctx.get_or_create(0x2000);
    assert_eq!(ctx.count(), 2);
}

#[test]
fn test_futex_wake_no_waiters() {
    let mut ctx = FutexContext::new();
    let result = futex_wake(&mut ctx, 0x1000, 1, FUTEX_OWNER_INVALID);
    assert!(result.is_ok());
    assert_eq!(result.unwrap(), 0);
}

#[test]
fn futex_wait_creates_then_refuses() {
    let mut ctx = FutexContext::new();
    let mem = UserMemory::new(0x1000, 64);
    assert_eq!(sys_futex_wait_impl(&mut ctx, &mem, 0x1010, 0, 0, None), err_to_ret(RX_ERR_NOT_SUPPORTED));
    assert_eq!(ctx.count(), 1);
    assert_eq!(sys_futex_wait_impl(&mut ctx, &mem, 0x5000, 0, 0, None), err_to_ret(RX_ERR_INVALID_ARGS));
    assert_eq!(ctx.count(), 1);
}

#[test]
fn futex_requeue_hands_over_owner() {
    let mut ctx = FutexContext::new();
    let _ = ctx.get_or_create(0x1000);
    assert_eq!(futex_requeue(&mut ctx, 0x1000, 2, 0, 0x2000, 3, 77), Ok(0));
    assert_eq!(sys_futex_get_owner_impl(&ctx, 0x2000), 77);
    assert_eq!(ctx.count(), 2);
    ctx.futexes.insert(0x1000, FutexState { waiters: 6, owner: FUTEX_OWNER_INVALID });
    assert_eq!(futex_requeue(&mut ctx, 0x1000, 2, 0, 0x2000, 3, 77), Ok(5));
    assert_eq!(ctx.futexes.get(&0x1000).unwrap().waiters, 1);
    assert_eq!(ctx.futexes.get(&0x2000).unwrap().waiters, 3);
    assert_eq!(futex_requeue(&mut ctx, 0x3000, 2, 0, 0x2000, 0, 0), Ok(0));
}

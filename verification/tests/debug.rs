use rustux_syscalls::debug::{
    ktrace_action, mtrace_kind, sys_debug_read_impl, sys_debug_send_command_impl, sys_debug_write_impl,
    sys_ktrace_control_impl, sys_ktrace_read_impl, sys_ktrace_write_impl, MAX_DEBUG_WRITE_SIZE,
};
use rustux_syscalls::err_to_ret;
use rustux_syscalls::status::RX_ERR_INVALID_ARGS;
use rustux_syscalls::usercopy::UserMemory;

#[test]
fn test_debug_write_max_size() {
    assert_eq!(MAX_DEBUG_WRITE_SIZE, 256);
}

#[test]
fn test_ktrace_action_consts() {
    assert_eq!(ktrace_action::NEW_PROBE, 0);
    assert_eq!(ktrace_action::START, 1);
    assert_eq!(ktrace_action::STOP, 2);
    assert_eq!(ktrace_action::RESET, 3);
}

#[test]
fn test_mtrace_kind_consts() {
    assert_eq!(mtrace_kind::HARDWARE, 0);
    assert_eq!(mtrace_kind::CPU, 1);
    assert_eq!(mtrace_kind::MEMORY, 2);
}

#[test]
fn test_debug_write_impl() {
    let mem = UserMemory::new(0x1000, 16);
    let result = sys_debug_write_impl(&mem, 0, 0);
    assert!(result >= 0);
}

#[test]
fn debug_write_clamps_to_window() {
    let mem = UserMemory::new(0x1000, 300);
    assert_eq!(sys_debug_write_impl(&mem, 0x1000, 1000), 0);
    assert_eq!(sys_debug_write_impl(&mem, 0x1040, 1000), err_to_ret(RX_ERR_INVALID_ARGS));
    assert_eq!(sys_debug_send_command_impl(&mem, 0, 0x1000, 257), err_to_ret(RX_ERR_INVALID_ARGS));
    assert_eq!(sys_debug_send_command_impl(&mem, 0, 0x1000, 256), 0);
}

#[test]
fn debug_read_zero_fills_and_reports_count() {
    let mut mem = UserMemory::new(0x1000, 32);
    for b in mem.bytes.iter_mut() {
        *b = 0xFF;
    }
    mem.bytes[0] = 4;
    let r = sys_debug_read_impl(&mut mem, 0, 0x1008, 0x1000);
    assert_eq!(r, 0);
    assert_eq!(&mem.bytes[8..12], &[0, 0, 0, 0]);
    assert_eq!(mem.bytes[12], 0xFF);
    assert_eq!(mem.bytes[0], 4);
}

#[test]
fn debug_read_partial_then_fails() {
    let mut mem = UserMemory::new(0x1000, 16);
    for b in mem.bytes.iter_mut() {
        *b = 0xFF;
    }
    mem.bytes[0] = 10;
    let r = sys_debug_read_impl(&mut mem, 0, 0x100C, 0x1000);
    assert_eq!(r, err_to_ret(RX_ERR_INVALID_ARGS));
    assert_eq!(&mem.bytes[12..16], &[0, 0, 0, 0]);
    assert_eq!(mem.bytes[0], 10);
    let mut empty = UserMemory::new(0x1000, 16);
    assert_eq!(sys_debug_read_impl(&mut empty, 0, 0x1000, 0), err_to_ret(RX_ERR_INVALID_ARGS));
}

#[test]
fn ktrace_calls() {
    let mut mem = UserMemory::new(0x1000, 64);
    mem.bytes[3] = 9;
    assert_eq!(sys_ktrace_read_impl(&mut mem, 0, 0, 0, 0, 0x1003), 0);
    assert_eq!(mem.bytes[3], 0);
    assert_eq!(sys_ktrace_read_impl(&mut mem, 0, 0, 0, 0, 0), err_to_ret(RX_ERR_INVALID_ARGS));
    assert_eq!(sys_ktrace_control_impl(&mem, 0, ktrace_action::NEW_PROBE, 0, 0x1000), 0);
    assert_eq!(sys_ktrace_control_impl(&mem, 0, ktrace_action::NEW_PROBE, 0, 0x1030), err_to_ret(RX_ERR_INVALID_ARGS));
    assert_eq!(sys_ktrace_control_impl(&mem, 0, ktrace_action::RESET, 0, 0), 0);
    assert_eq!(sys_ktrace_control_impl(&mem, 0, 4, 0, 0), err_to_ret(RX_ERR_INVALID_ARGS));
    assert_eq!(sys_ktrace_write_impl(0, 0x7FF, 0, 0), 0);
    assert_eq!(sys_ktrace_write_impl(0, 0x800, 0, 0), err_to_ret(RX_ERR_INVALID_ARGS));
}

use rustux_syscalls::status::{RX_ERR_BAD_SYSCALL, RX_ERR_NO_MEMORY};
use rustux_syscalls::wrapper::{
    get_stats, handle_invalid_syscall, is_valid_pc, is_valid_syscall_number, record_syscall, wrap_syscall,
    SyscallResult, SyscallStatistics,
};
use rustux_syscalls::{err_to_ret, ok_to_ret};

#[test]
fn test_syscall_validation() {
    assert!(is_valid_syscall_number(0x01));
    assert!(is_valid_syscall_number(0x43));
    assert!(!is_valid_syscall_number(0x44));
    assert!(!is_valid_syscall_number(0xFFFF));
}

#[test]
fn test_statistics() {
    let mut stats = SyscallStatistics::new();
    stats.record(0x01);
    stats.record(0x01);
    stats.record(0x02);
    assert_eq!(stats.total(), 3);
    assert_eq!(stats.count(0x01), 2);
    assert_eq!(stats.count(0x02), 1);
    assert_eq!(stats.count(0x03), 0);
}

#[test]
fn test_syscall_result() {
    let result = SyscallResult::ok(42);
    assert_eq!(result.value, 42);
    assert!(!result.signal_pending);

    let result = SyscallResult::err(RX_ERR_NO_MEMORY);
    assert_eq!(result.value, RX_ERR_NO_MEMORY as u64);
    assert!(!result.signal_pending);

    let result = SyscallResult::with_signal(0);
    assert_eq!(result.value, 0);
    assert!(result.signal_pending);
}

#[test]
fn test_wrap_syscall() {
    let mut stats = SyscallStatistics::new();
    let result = wrap_syscall(&mut stats, 0x01, 0x1000, 0, || ok_to_ret(42));
    assert_eq!(result.value, 42);
    assert!(!result.signal_pending);
    assert_eq!(get_stats(&stats).count(0x01), 1);
}

#[test]
fn test_wrap_invalid_syscall() {
    let mut stats = SyscallStatistics::new();
    let result = wrap_syscall(&mut stats, 0x01, 0, 0, || ok_to_ret(42));
    assert_eq!(result.value as i64, -(RX_ERR_BAD_SYSCALL as i64));
}

#[test]
fn wrapper_counts_out_of_table_numbers_in_total_only() {
    let mut stats = SyscallStatistics::new();
    record_syscall(&mut stats, 300);
    assert_eq!(stats.total(), 1);
    assert_eq!(stats.count(300), 0);
    assert!(stats.by_type.iter().all(|c| *c == 0));
    assert!(is_valid_pc(1, 0));
    assert!(!is_valid_pc(0, 0x1000));
    assert_eq!(handle_invalid_syscall(5, 0), err_to_ret(RX_ERR_BAD_SYSCALL));
}

#[test]
fn wrapper_negative_return_sign_extended() {
    let mut stats = SyscallStatistics::new();
    let result = wrap_syscall(&mut stats, 7, 0x10, 0, || err_to_ret(RX_ERR_NO_MEMORY));
    assert_eq!(result.value as i64, -(RX_ERR_NO_MEMORY as i64));
    assert_eq!(stats.count(7), 1);
}

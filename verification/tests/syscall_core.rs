use rustux_syscalls::status::RX_ERR_NO_MEMORY;
use rustux_syscalls::{err_to_ret, get_syscall_stats, ok_to_ret, SyscallArgs, SyscallNumber, SyscallRet, SyscallStats};

#[test]
fn test_syscall_number_conversion() {
    let num = SyscallNumber::from_raw(0x01);
    assert_eq!(num.into_raw(), 0x01);
    assert_eq!(num.name(), "rx_process_create");

    let unknown = SyscallNumber::from_raw(0xFFFF);
    assert_eq!(unknown, SyscallNumber::Unknown);
}

#[test]
fn test_syscall_args() {
    let args = SyscallArgs::new(0x10, [1, 2, 3, 4, 5, 6]);
    assert_eq!(args.number, 0x10);
    assert_eq!(args.arg(0), 1);
    assert_eq!(args.arg(5), 6);
    assert_eq!(args.arg(10), 0);
}

#[test]
fn test_ret_conversions() {
    assert_eq!(ok_to_ret(42), 42);
    assert_eq!(err_to_ret(RX_ERR_NO_MEMORY), -(RX_ERR_NO_MEMORY as SyscallRet));
}

#[test]
fn syscall_number_round_trip_for_every_known_number() {
    for n in 0u32..0x50 {
        let s = SyscallNumber::from_raw(n);
        if s != SyscallNumber::Unknown {
            assert_eq!(s.into_raw(), n);
        }
    }
    assert_eq!(SyscallNumber::from_raw(0x43), SyscallNumber::rx_timer_cancel);
    assert_eq!(SyscallNumber::from_raw(0x8), SyscallNumber::Unknown);
    assert_eq!(SyscallNumber::Unknown.into_raw(), 0xFFFF);
    assert_eq!(SyscallNumber::rx_vmar_map.name(), "rx_vmar_map");
}

#[test]
fn syscall_stats_record() {
    let mut stats = SyscallStats::new();
    stats.record(3);
    stats.record(3);
    stats.record(999);
    let s = get_syscall_stats(&stats);
    assert_eq!(s.total_calls, 3);
    assert_eq!(s.by_number[3], 2);
    assert_eq!(s.by_number.iter().sum::<u64>(), 2);
}

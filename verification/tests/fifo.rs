use rustux_syscalls::err_to_ret;
use rustux_syscalls::fifo::{sys_fifo_create_impl, sys_fifo_read_impl, sys_fifo_write_impl, FifoSubsystem};
use rustux_syscalls::status::{RX_ERR_BAD_HANDLE, RX_ERR_INVALID_ARGS, RX_ERR_SHOULD_WAIT};
use rustux_syscalls::usercopy::UserMemory;

#[test]
fn test_fifo_create() {
    let mut sub = FifoSubsystem::new();
    let mut mem = UserMemory::new(0x1000, 64);
    let result = sys_fifo_create_impl(&mut sub, &mut mem, 16, 8, 0, 0, 0);
    assert!(result >= 0);
}

#[test]
fn test_fifo_create_invalid_options() {
    let mut sub = FifoSubsystem::new();
    let mut mem = UserMemory::new(0x1000, 64);
    let result = sys_fifo_create_impl(&mut sub, &mut mem, 16, 8, 0xFF, 0, 0);
    assert!(result < 0);
}

#[test]
fn test_fifo_create_invalid_count() {
    let mut sub = FifoSubsystem::new();
    let mut mem = UserMemory::new(0x1000, 64);
    let result = sys_fifo_create_impl(&mut sub, &mut mem, 0, 8, 0, 0, 0);
    assert!(result < 0);
}

#[test]
fn test_fifo_create_invalid_elem_size() {
    let mut sub = FifoSubsystem::new();
    let mut mem = UserMemory::new(0x1000, 64);
    let result = sys_fifo_create_impl(&mut sub, &mut mem, 16, 0, 0, 0, 0);
    assert!(result < 0);
}

#[test]
fn test_fifo_write_invalid_handle() {
    let mut sub = FifoSubsystem::new();
    let mut mem = UserMemory::new(0x1000, 64);
    let result = sys_fifo_write_impl(&mut sub, &mut mem, 0, 8, 0, 1, 0);
    assert!(result < 0);
}

#[test]
fn test_fifo_read_invalid_handle() {
    let mut sub = FifoSubsystem::new();
    let mut mem = UserMemory::new(0x1000, 64);
    let result = sys_fifo_read_impl(&mut sub, &mut mem, 0, 8, 0, 1, 0);
    assert!(result < 0);
}

#[test]
fn fifo_elements_written_on_one_end_come_out_of_the_other_in_order() {
    let mut sub = FifoSubsystem::new();
    let mut mem = UserMemory::new(0x1000, 128);
    assert_eq!(sys_fifo_create_impl(&mut sub, &mut mem, 4, 2, 0, 0x1000, 0x1008), 0);
    assert_eq!(&mem.bytes[0..8], &1u64.to_le_bytes());
    assert_eq!(&mem.bytes[8..16], &2u64.to_le_bytes());
    for (i, b) in [10u8, 11, 12, 13, 14, 15].iter().enumerate() {
        mem.bytes[0x20 + i] = *b;
    }
    assert_eq!(sys_fifo_write_impl(&mut sub, &mut mem, 1, 2, 0x1020, 2, 0x1040), 0);
    assert_eq!(&mem.bytes[0x40..0x48], &2u64.to_le_bytes());
    assert_eq!(sys_fifo_write_impl(&mut sub, &mut mem, 1, 2, 0x1024, 1, 0), 0);
    assert_eq!(sys_fifo_read_impl(&mut sub, &mut mem, 2, 2, 0x1050, 1, 0x1048), 0);
    assert_eq!(&mem.bytes[0x50..0x52], &[10, 11]);
    assert_eq!(&mem.bytes[0x48..0x50], &1u64.to_le_bytes());
    assert_eq!(sys_fifo_read_impl(&mut sub, &mut mem, 2, 2, 0x1060, 4, 0x1048), 0);
    assert_eq!(&mem.bytes[0x60..0x64], &[12, 13, 14, 15]);
    assert_eq!(&mem.bytes[0x48..0x50], &2u64.to_le_bytes());
    assert_eq!(sys_fifo_read_impl(&mut sub, &mut mem, 2, 2, 0x1060, 1, 0), err_to_ret(RX_ERR_SHOULD_WAIT));
    assert_eq!(sys_fifo_read_impl(&mut sub, &mut mem, 1, 2, 0x1060, 1, 0), err_to_ret(RX_ERR_SHOULD_WAIT));
}

#[test]
fn fifo_error_codes() {
    let mut sub = FifoSubsystem::new();
    let mut mem = UserMemory::new(0x1000, 64);
    assert_eq!(sys_fifo_create_impl(&mut sub, &mut mem, 4, 2, 0, 0, 0), 0);
    assert_eq!(sys_fifo_write_impl(&mut sub, &mut mem, 1, 4, 0x1000, 1, 0), err_to_ret(RX_ERR_INVALID_ARGS));
    assert_eq!(sys_fifo_read_impl(&mut sub, &mut mem, 9, 2, 0x1000, 1, 0), err_to_ret(RX_ERR_BAD_HANDLE));
    assert_eq!(sys_fifo_create_impl(&mut sub, &mut mem, 4, 2, 0, 0x2000, 0), err_to_ret(RX_ERR_INVALID_ARGS));
}

use rustux_syscalls::err_to_ret;
use rustux_syscalls::socket::{
    sys_socket_create_impl, sys_socket_read_impl, sys_socket_shutdown_impl, sys_socket_write_impl, SocketSubsystem,
};
use rustux_syscalls::status::{RX_ERR_BAD_HANDLE, RX_ERR_INVALID_ARGS};
use rustux_syscalls::usercopy::UserMemory;

#[test]
fn test_socket_create() {
    let mut sub = SocketSubsystem::new();
    let mut mem = UserMemory::new(0x1000, 64);
    let result = sys_socket_create_impl(&mut sub, &mut mem, 0, 0, 0);
    assert!(result >= 0);
}

#[test]
fn test_socket_create_invalid_options() {
    let mut sub = SocketSubsystem::new();
    let mut mem = UserMemory::new(0x1000, 64);
    let result = sys_socket_create_impl(&mut sub, &mut mem, 0xFF, 0, 0);
    assert!(result < 0);
}

#[test]
fn test_socket_write_invalid_handle() {
    let mut sub = SocketSubsystem::new();
    let mut mem = UserMemory::new(0x1000, 64);
    let result = sys_socket_write_impl(&mut sub, &mut mem, 0, 0, 0, 0, 0);
    assert!(result < 0);
}

#[test]
fn test_socket_read_invalid_handle() {
    let mut sub = SocketSubsystem::new();
    let mut mem = UserMemory::new(0x1000, 64);
    let result = sys_socket_read_impl(&mut sub, &mut mem, 0, 0, 0, 0, 0);
    assert!(result < 0);
}

#[test]
fn test_socket_shutdown_invalid_options() {
    let mut sub = SocketSubsystem::new();
    let mut mem = UserMemory::new(0x1000, 64);
    sys_socket_create_impl(&mut sub, &mut mem, 0, 0, 0);
    let result = sys_socket_shutdown_impl(&mut sub, 1, 0xFF);
    assert!(result < 0);
    assert_eq!(result, err_to_ret(RX_ERR_INVALID_ARGS));
}

#[test]
fn socket_bytes_come_out_in_order() {
    let mut sub = SocketSubsystem::new();
    let mut mem = UserMemory::new(0x1000, 128);
    assert_eq!(sys_socket_create_impl(&mut sub, &mut mem, 0, 0x1000, 0x1008), 0);
    mem.bytes[0x20..0x25].copy_from_slice(&[1, 2, 3, 4, 5]);
    assert_eq!(sys_socket_write_impl(&mut sub, &mut mem, 1, 0, 0x1020, 3, 0x1040), 0);
    assert_eq!(&mem.bytes[0x40..0x48], &3u64.to_le_bytes());
    assert_eq!(sys_socket_write_impl(&mut sub, &mut mem, 1, 0, 0x1023, 2, 0), 0);
    assert_eq!(sys_socket_read_impl(&mut sub, &mut mem, 1, 0, 0x1050, 4, 0x1048), 0);
    assert_eq!(&mem.bytes[0x50..0x54], &[1, 2, 3, 4]);
    assert_eq!(&mem.bytes[0x48..0x50], &4u64.to_le_bytes());
    assert_eq!(sys_socket_read_impl(&mut sub, &mut mem, 1, 0, 0x1060, 4, 0x1048), 0);
    assert_eq!(mem.bytes[0x60], 5);
    assert_eq!(&mem.bytes[0x48..0x50], &1u64.to_le_bytes());
    assert_eq!(sys_socket_shutdown_impl(&mut sub, 9, 1), err_to_ret(RX_ERR_BAD_HANDLE));
}

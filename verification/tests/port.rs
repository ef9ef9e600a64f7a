use rustux_syscalls::err_to_ret;
use rustux_syscalls::port::{
    sys_port_cancel_impl, sys_port_create_impl, sys_port_queue_impl, sys_port_wait_impl, PacketType, PortPacket,
    PortSubsystem, PORT_PACKET_SIZE,
};
use rustux_syscalls::status::{RX_ERR_BAD_HANDLE, RX_ERR_TIMED_OUT};
use rustux_syscalls::usercopy::UserMemory;

#[test]
fn test_port_create() {
    let mut sub = PortSubsystem::new();
    let result = sys_port_create_impl(&mut sub, 0);
    assert!(result >= 0);
}

#[test]
fn test_port_create_invalid_options() {
    let mut sub = PortSubsystem::new();
    let result = sys_port_create_impl(&mut sub, 0xFF);
    assert!(result < 0);
}

#[test]
fn test_port_queue_invalid_handle() {
    let mut sub = PortSubsystem::new();
    let mem = UserMemory::new(0x1000, 64);
    let result = sys_port_queue_impl(&mut sub, &mem, 0, 0);
    assert!(result < 0);
}

#[test]
fn test_port_wait_invalid_handle() {
    let mut sub = PortSubsystem::new();
    let mut mem = UserMemory::new(0x1000, 64);
    let result = sys_port_wait_impl(&mut sub, &mut mem, 0, 0, 0);
    assert!(result < 0);
}

#[test]
fn test_port_cancel_invalid_handle() {
    let mut sub = PortSubsystem::new();
    let result = sys_port_cancel_impl(&mut sub, 0, 0, 0);
    assert!(result < 0);
}

#[test]
fn test_packet_size() {
    assert!(core::mem::size_of::<PortPacket>() >= 40);
    assert_eq!(PORT_PACKET_SIZE, 48);
    assert_eq!(PacketType::EventPair.into_raw(), 6);
}

fn packet_with_key(mem: &mut UserMemory, at: usize, key: u64, tag: u8) {
    mem.bytes[at..at + 8].copy_from_slice(&key.to_le_bytes());
    mem.bytes[at + 8] = tag;
}

#[test]
fn port_packets_come_out_in_order_and_cancel_by_key() {
    let mut sub = PortSubsystem::new();
    let mut mem = UserMemory::new(0x1000, 256);
    let h = sys_port_create_impl(&mut sub, 0) as u32;
    packet_with_key(&mut mem, 0, 5, 1);
    packet_with_key(&mut mem, 48, 6, 2);
    packet_with_key(&mut mem, 96, 5, 3);
    assert_eq!(sys_port_queue_impl(&mut sub, &mem, h, 0x1000), 0);
    assert_eq!(sys_port_queue_impl(&mut sub, &mem, h, 0x1030), 0);
    assert_eq!(sys_port_queue_impl(&mut sub, &mem, h, 0x1060), 0);
    assert_eq!(sys_port_cancel_impl(&mut sub, h, 1, 5), 0);
    assert_eq!(sys_port_wait_impl(&mut sub, &mut mem, h, 0, 0x10A0), 0);
    assert_eq!(&mem.bytes[0xA0..0xA8], &6u64.to_le_bytes());
    assert_eq!(mem.bytes[0xA8], 2);
    assert_eq!(sys_port_wait_impl(&mut sub, &mut mem, h, 0, 0x10A0), err_to_ret(RX_ERR_TIMED_OUT));
    assert_eq!(sys_port_queue_impl(&mut sub, &mem, h + 1, 0x1000), err_to_ret(RX_ERR_BAD_HANDLE));
}

#[test]
fn port_cancel_twice_drops_nothing_more() {
    let mut sub = PortSubsystem::new();
    let mut mem = UserMemory::new(0x1000, 256);
    let h = sys_port_create_impl(&mut sub, 0) as u32;
    packet_with_key(&mut mem, 0, 5, 1);
    packet_with_key(&mut mem, 48, 6, 2);
    assert_eq!(sys_port_queue_impl(&mut sub, &mem, h, 0x1000), 0);
    assert_eq!(sys_port_queue_impl(&mut sub, &mem, h, 0x1030), 0);
    assert_eq!(sys_port_cancel_impl(&mut sub, h, 1, 5), 0);
    assert!(sys_port_cancel_impl(&mut sub, h, 1, 5) < 0);
    assert_eq!(sys_port_wait_impl(&mut sub, &mut mem, h, 0, 0x10A0), 0);
    assert_eq!(&mem.bytes[0xA0..0xA8], &6u64.to_le_bytes());
}

use rustux_syscalls::err_to_ret;
use rustux_syscalls::hypervisor::{
    sys_guest_create_impl, sys_vcpu_create_impl, sys_vcpu_read_state_impl, sys_vcpu_resume_impl,
    sys_vcpu_write_state_impl, Hypervisor, VcpuState,
};
use rustux_syscalls::status::{RX_ERR_ACCESS_DENIED, RX_ERR_INVALID_ARGS};
use rustux_syscalls::usercopy::UserMemory;

#[test]
fn test_guest_create() {
    let mut hv = Hypervisor::new();
    let mut mem = UserMemory::new(0x1000, 64);
    let result = sys_guest_create_impl(&mut hv, &mut mem, 0, 0, 0, 0);
    assert!(result >= 0);
}

#[test]
fn test_guest_create_invalid_options() {
    let mut hv = Hypervisor::new();
    let mut mem = UserMemory::new(0x1000, 64);
    let result = sys_guest_create_impl(&mut hv, &mut mem, 0, 0xFF, 0, 0);
    assert!(result < 0);
}

#[test]
fn test_guest_create_invalid_resource() {
    let mut hv = Hypervisor::new();
    let mut mem = UserMemory::new(0x1000, 64);
    let result = sys_guest_create_impl(&mut hv, &mut mem, 999, 0, 0, 0);
    assert!(result < 0);
    assert_eq!(result, err_to_ret(RX_ERR_ACCESS_DENIED));
}

#[test]
fn test_vcpu_create() {
    let mut hv = Hypervisor::new();
    let mut mem = UserMemory::new(0x1000, 64);
    let result = sys_vcpu_create_impl(&mut hv, &mut mem, 0, 0, 0, 0);
    assert!(result >= 0);
}

#[test]
fn test_vcpu_create_invalid_options() {
    let mut hv = Hypervisor::new();
    let mut mem = UserMemory::new(0x1000, 64);
    let result = sys_vcpu_create_impl(&mut hv, &mut mem, 0, 0xFF, 0, 0);
    assert!(result < 0);
}

#[test]
fn test_vcpu_state_size() {
    assert!(core::mem::size_of::<VcpuState>() >= 512);
}

#[test]
fn guest_create_stores_ids() {
    let mut hv = Hypervisor::new();
    let mut mem = UserMemory::new(0x1000, 64);
    assert_eq!(sys_guest_create_impl(&mut hv, &mut mem, 0, 0, 0x1000, 0x1008), 0);
    assert_eq!(&mem.bytes[0..8], &1u64.to_le_bytes());
    assert_eq!(&mem.bytes[8..16], &2u64.to_le_bytes());
    assert_eq!(hv.next_guest_id, 2);
    assert_eq!(sys_guest_create_impl(&mut hv, &mut mem, 0, 0, 0x1000, 0x2000), err_to_ret(RX_ERR_INVALID_ARGS));
    assert_eq!(&mem.bytes[0..8], &2u64.to_le_bytes());
    assert_eq!(hv.next_guest_id, 3);
}

#[test]
fn vcpu_ids_and_state() {
    let mut hv = Hypervisor::new();
    let mut mem = UserMemory::new(0x1000, 64);
    assert_eq!(sys_vcpu_create_impl(&mut hv, &mut mem, 0, 0, 0, 0x1010), 0);
    assert_eq!(sys_vcpu_create_impl(&mut hv, &mut mem, 0, 0, 0, 0x1018), 0);
    assert_eq!(&mem.bytes[0x10..0x18], &1u64.to_le_bytes());
    assert_eq!(&mem.bytes[0x18..0x20], &2u64.to_le_bytes());
    for b in mem.bytes.iter_mut() {
        *b = 7;
    }
    assert_eq!(sys_vcpu_resume_impl(&mut mem, 0, 0x1000), 0);
    assert_eq!(&mem.bytes[0..8], &[0u8; 8]);
    assert_eq!(sys_vcpu_read_state_impl(&mut mem, 0, 1, 0x1020, 16), 0);
    assert_eq!(&mem.bytes[0x20..0x30], &[0u8; 16]);
    assert_eq!(mem.bytes[0x30], 7);
    assert_eq!(sys_vcpu_read_state_impl(&mut mem, 0, 1, 0x1000, 513), err_to_ret(RX_ERR_INVALID_ARGS));
    assert_eq!(sys_vcpu_write_state_impl(&mem, 0, 1, 0x1000, 64), 0);
    assert_eq!(sys_vcpu_write_state_impl(&mem, 0, 1, 0x1000, 65), err_to_ret(RX_ERR_INVALID_ARGS));
}

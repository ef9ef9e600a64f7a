use rustux_syscalls::err_to_ret;
use rustux_syscalls::resource::{resource_kind, resource_options, sys_resource_create_impl};
use rustux_syscalls::status::{RX_ERR_ACCESS_DENIED, RX_ERR_INVALID_ARGS};
use rustux_syscalls::usercopy::UserMemory;

#[test]
fn test_resource_create() {
    let mut next_id = 1u64;
    let mem = UserMemory::new(0x1000, 64);
    let result = sys_resource_create_impl(&mut next_id, &mem, 0, 0, 0, 0, 0, 0);
    assert!(result >= 0);
}

#[test]
fn test_resource_create_not_root() {
    let mut next_id = 1u64;
    let mem = UserMemory::new(0x1000, 64);
    let result = sys_resource_create_impl(&mut next_id, &mem, 1, 0, 0, 0, 0, 0);
    assert!(result < 0);
    assert_eq!(result, err_to_ret(RX_ERR_ACCESS_DENIED));
}

#[test]
fn test_resource_create_invalid_kind() {
    let mut next_id = 1u64;
    let mem = UserMemory::new(0x1000, 64);
    let result = sys_resource_create_impl(&mut next_id, &mem, 0, resource_kind::COUNT, 0, 0, 0, 0);
    assert!(result < 0);
}

#[test]
fn test_resource_kind_extraction() {
    assert_eq!(resource_options::extract_kind(0x05), 0x05);
    assert_eq!(resource_options::extract_flags(0xFF00), 0xFF00);
}

#[test]
fn resource_ids_advance_and_name_checked() {
    let mut next_id = 7u64;
    let mem = UserMemory::new(0x1000, 64);
    assert_eq!(sys_resource_create_impl(&mut next_id, &mem, 0, 0, 0, 0, 0x1000, 100), 7);
    assert_eq!(next_id, 8);
    assert_eq!(sys_resource_create_impl(&mut next_id, &mem, 0, 0, 0, 0, 0x1030, 100), err_to_ret(RX_ERR_INVALID_ARGS));
    assert_eq!(next_id, 8);
}

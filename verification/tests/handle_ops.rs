use rustux_syscalls::err_to_ret;
use rustux_syscalls::handle_ops::{
    sys_handle_close_impl, sys_handle_duplicate_impl, sys_handle_replace_impl, sys_handle_transfer_impl,
    ZX_HANDLE_INVALID, ZX_RIGHT_SAME_RIGHTS,
};
use rustux_syscalls::kobject::{Handle, HandleTable, ObjectType, RIGHTS_DUPLICATE, RIGHTS_READ, RIGHTS_TRANSFER};
use rustux_syscalls::status::{RX_ERR_ACCESS_DENIED, RX_ERR_BAD_HANDLE, RX_ERR_INVALID_ARGS};
use rustux_syscalls::usercopy::UserMemory;

#[test]
fn test_handle_close_invalid() {
    let mut handles = HandleTable::new();
    let result = sys_handle_close_impl(&mut handles, ZX_HANDLE_INVALID);
    assert!(result >= 0);
}

#[test]
fn test_handle_same_rights_const() {
    assert_eq!(ZX_RIGHT_SAME_RIGHTS, 0x80000000);
}

#[test]
fn test_handle_invalid_const() {
    assert_eq!(ZX_HANDLE_INVALID, 0);
}

#[test]
fn handle_close_removes_once() {
    let mut handles = HandleTable::new();
    let v = handles.add(Handle::new(ObjectType::Event, 3, RIGHTS_READ)).unwrap();
    assert_eq!(sys_handle_close_impl(&mut handles, v), 0);
    assert!(handles.get(v).is_none());
    assert_eq!(sys_handle_close_impl(&mut handles, v), err_to_ret(RX_ERR_BAD_HANDLE));
}

#[test]
fn handle_duplicate_and_replace() {
    let mut handles = HandleTable::new();
    let mut mem = UserMemory::new(0x1000, 16);
    let v = handles.add(Handle::new(ObjectType::Vmo, 8, RIGHTS_DUPLICATE | RIGHTS_READ)).unwrap();
    assert_eq!(sys_handle_duplicate_impl(&mut handles, &mut mem, v, RIGHTS_READ, 0x1000), 0);
    let nv = u32::from_le_bytes([mem.bytes[0], mem.bytes[1], mem.bytes[2], mem.bytes[3]]);
    let dup = handles.get(nv).unwrap();
    assert_eq!(dup.id, 8);
    assert_eq!(dup.rights, RIGHTS_READ);
    assert_eq!(sys_handle_duplicate_impl(&mut handles, &mut mem, nv, ZX_RIGHT_SAME_RIGHTS, 0x1000), err_to_ret(RX_ERR_ACCESS_DENIED));
    assert_eq!(sys_handle_duplicate_impl(&mut handles, &mut mem, v, RIGHTS_TRANSFER, 0x1000), err_to_ret(RX_ERR_INVALID_ARGS));
    assert_eq!(sys_handle_replace_impl(&mut handles, &mut mem, v, ZX_RIGHT_SAME_RIGHTS, 0x1004), 0);
    assert!(handles.get(v).is_none());
    let rv = u32::from_le_bytes([mem.bytes[4], mem.bytes[5], mem.bytes[6], mem.bytes[7]]);
    assert_eq!(handles.get(rv).unwrap().rights, RIGHTS_DUPLICATE | RIGHTS_READ);
}

#[test]
fn handle_transfer_checks() {
    let mut handles = HandleTable::new();
    let v = handles.add(Handle::new(ObjectType::Vmo, 8, RIGHTS_READ)).unwrap();
    assert_eq!(sys_handle_transfer_impl(&mut handles, v, ZX_RIGHT_SAME_RIGHTS, 1), err_to_ret(RX_ERR_INVALID_ARGS));
    assert_eq!(sys_handle_transfer_impl(&mut handles, v, ZX_RIGHT_SAME_RIGHTS, 0), err_to_ret(RX_ERR_ACCESS_DENIED));
    let w = handles.add(Handle::new(ObjectType::Vmo, 9, RIGHTS_TRANSFER)).unwrap();
    assert_eq!(sys_handle_transfer_impl(&mut handles, w, ZX_RIGHT_SAME_RIGHTS, 0), 0);
    assert!(handles.get(w).is_none());
}

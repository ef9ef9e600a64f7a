use rustux_syscalls::err_to_ret;
use rustux_syscalls::pager::{sys_pager_create_impl, sys_pager_create_vmo_impl};
use rustux_syscalls::status::RX_ERR_INVALID_ARGS;

#[test]
fn test_pager_create() {
    let mut next_id = 1u64;
    let result = sys_pager_create_impl(&mut next_id, 0);
    assert!(result >= 0);
    assert_eq!(result, 1);
    assert_eq!(next_id, 2);
}

#[test]
fn test_pager_create_invalid_options() {
    let mut next_id = 1u64;
    let result = sys_pager_create_impl(&mut next_id, 0xFF);
    assert!(result < 0);
    assert_eq!(result, err_to_ret(RX_ERR_INVALID_ARGS));
    assert_eq!(next_id, 1);
}

#[test]
fn test_pager_create_vmo() {
    let result = sys_pager_create_vmo_impl(0, 0, 0x1000, 0x10000, 0);
    assert!(result >= 0);
    assert_eq!(result, 0x1000);
}

#[test]
fn test_pager_create_vmo_invalid_options() {
    let result = sys_pager_create_vmo_impl(0, 0, 0x1000, 0x10000, 0xFF);
    assert!(result < 0);
}

use rustux_syscalls::ddk::{
    bti_perm, interrupt_flags, iommu_type, sys_bti_create_impl, sys_framebuffer_set_range_impl,
    sys_interrupt_bind_impl, sys_interrupt_create_impl, sys_iommu_create_impl, sys_smc_call_impl,
    sys_vmo_create_contiguous_impl, sys_vmo_create_physical_impl, CONTIGUOUS_VMO_HANDLE, INTERRUPT_HANDLE,
};
use rustux_syscalls::err_to_ret;
use rustux_syscalls::status::{RX_ERR_INVALID_ARGS, RX_ERR_NOT_SUPPORTED};
use rustux_syscalls::usercopy::UserMemory;

#[test]
fn test_bti_perm_consts() {
    assert_eq!(bti_perm::READ, 0x01);
    assert_eq!(bti_perm::WRITE, 0x02);
    assert_eq!(bti_perm::EXECUTE, 0x04);
    assert_eq!(bti_perm::COMPRESS, 0x08);
    assert_eq!(bti_perm::CONTIGUOUS, 0x10);
}

#[test]
fn test_interrupt_flags_consts() {
    assert_eq!(interrupt_flags::VIRTUAL, 0x01);
    assert_eq!(interrupt_flags::REMAPPED, 0x02);
}

#[test]
fn test_iommu_type_consts() {
    assert_eq!(iommu_type::INTEL, 1);
    assert_eq!(iommu_type::ARM_SMMU, 2);
    assert_eq!(iommu_type::BROADCOM, 3);
}

#[test]
fn test_vmo_create_contiguous_invalid_size() {
    let mut mem = UserMemory::new(0x1000, 64);
    let result = sys_vmo_create_contiguous_impl(&mut mem, 0, 0, 0, 0);
    assert!(result < 0);
}

#[test]
fn test_vmo_create_contiguous_invalid_alignment() {
    let mut mem = UserMemory::new(0x1000, 64);
    let result = sys_vmo_create_contiguous_impl(&mut mem, 0, 4096, 64, 0);
    assert!(result < 0);
}

#[test]
fn ddk_contiguous_stores_handle() {
    let mut mem = UserMemory::new(0x1000, 16);
    let r = sys_vmo_create_contiguous_impl(&mut mem, 0, 4096, 0, 0x1004);
    assert_eq!(r, 0);
    assert_eq!(&mem.bytes[4..8], &CONTIGUOUS_VMO_HANDLE.to_le_bytes());
    assert_eq!(mem.bytes[0], 0);
}

#[test]
fn ddk_contiguous_alignment_below_page_refused() {
    let mut mem = UserMemory::new(0x1000, 16);
    assert_eq!(sys_vmo_create_contiguous_impl(&mut mem, 0, 4096, 11, 0x1000), err_to_ret(RX_ERR_INVALID_ARGS));
    assert_eq!(sys_vmo_create_contiguous_impl(&mut mem, 0, 4096, 63, 0x1000), 0);
}

#[test]
fn ddk_handle_store_outside_window_fails() {
    let mut mem = UserMemory::new(0x1000, 16);
    assert_eq!(sys_vmo_create_physical_impl(&mut mem, 0, 0, 4096, 0x100E), err_to_ret(RX_ERR_INVALID_ARGS));
    assert!(mem.bytes.iter().all(|b| *b == 0));
    assert_eq!(sys_interrupt_create_impl(&mut mem, 0, 5, 0, 0x1000), 0);
    assert_eq!(&mem.bytes[0..4], &INTERRUPT_HANDLE.to_le_bytes());
}

#[test]
fn ddk_iommu_and_bti_argument_checks() {
    let mut mem = UserMemory::new(0x1000, 16);
    assert_eq!(sys_iommu_create_impl(&mut mem, 0, 1, 0, 257, 0x1000), err_to_ret(RX_ERR_INVALID_ARGS));
    assert_eq!(sys_iommu_create_impl(&mut mem, 0, 1, 0, 256, 0x1000), 0);
    assert_eq!(sys_bti_create_impl(&mut mem, 0, 1, 0, 0x1000), err_to_ret(RX_ERR_INVALID_ARGS));
    assert_eq!(sys_bti_create_impl(&mut mem, 0, 0, 0, 0x1000), 0);
}

#[test]
fn ddk_stubs() {
    assert_eq!(sys_framebuffer_set_range_impl(0, 0, 0, 0, 0, 0, 0), 0);
    assert_eq!(sys_interrupt_bind_impl(0, 0, 0, 1), err_to_ret(RX_ERR_INVALID_ARGS));
    assert_eq!(sys_interrupt_bind_impl(0, 0, 0, 0), err_to_ret(RX_ERR_NOT_SUPPORTED));
    assert_eq!(sys_smc_call_impl(0, 0, 0), err_to_ret(RX_ERR_NOT_SUPPORTED));
}

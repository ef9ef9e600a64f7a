//! Driver-kit syscalls: DMA and physical memory objects, framebuffer,
//! IOMMU, bus transaction initiators and interrupts.  The objects behind
//! them are not present: creation stores a fixed handle value, the other
//! calls check their arguments and are refused or accepted as they stand.
use vstd::prelude::*;
use crate::status::{RX_ERR_INVALID_ARGS, RX_ERR_NOT_SUPPORTED};
use crate::usercopy::{UserMemory, le_bytes};
use crate::{SyscallRet, err_to_ret, ok_to_ret};

pub mod bti_perm;
pub mod interrupt_flags;
pub mod iommu_type;

verus! {

/// Log2 of the page size.
pub const PAGE_SIZE_SHIFT: u32 = 12;

/// Largest IOMMU descriptor, in bytes.
pub const IOMMU_MAX_DESC_LEN: usize = 256;

/// Handle value stored for a new contiguous memory object.
pub const CONTIGUOUS_VMO_HANDLE: u32 = 1000;
/// Handle value stored for a new physical memory object.
pub const PHYSICAL_VMO_HANDLE: u32 = 1001;
/// Handle value stored for a new IOMMU.
pub const IOMMU_HANDLE: u32 = 2000;
/// Handle value stored for a new bus transaction initiator.
pub const BTI_HANDLE: u32 = 3000;
/// Handle value stored for a new interrupt.
pub const INTERRUPT_HANDLE: u32 = 4000;

/// Memory after a successful store of handle value `h` at `out`, or the
/// result of a failed one: the status returned and the memory left.
pub open spec fn store_handle_result(mem: &UserMemory, out: usize, h: u32) -> (SyscallRet, Seq<u8>) {
    if mem.range_ok(out, 4) {
        (0, mem.written(out, le_bytes(h as u64, 4)))
    } else {
        (-RX_ERR_INVALID_ARGS as isize, mem.bytes@)
    }
}

/// Store handle value `h` as 4 bytes at `out`.
fn store_handle(mem: &mut UserMemory, out: usize, h: u32) -> (r: SyscallRet)
    ensures
        final(mem).base == old(mem).base,
        (r, final(mem).bytes@) == store_handle_result(&*old(mem), out, h),
{
    match mem.write_le(out, h as u64, 4) {
        Ok(()) => ok_to_ret(0),
        Err(err) => err_to_ret(err),
    }
}

/// Whether a contiguous memory object of `size` bytes with alignment
/// `2^alignment_log2` (0 meaning one page) may be created: a non-zero size
/// and an alignment from one page up to `2^63`.
pub open spec fn contiguous_args_ok(size: usize, alignment_log2: u32) -> bool {
    let a = if alignment_log2 == 0 { PAGE_SIZE_SHIFT } else { alignment_log2 };
    size != 0 && PAGE_SIZE_SHIFT <= a < 64
}

/// Create a physically contiguous memory object for DMA and store its
/// handle at `vmo_out`.
pub fn sys_vmo_create_contiguous_impl(mem: &mut UserMemory, bti_handle: u32, size: usize, alignment_log2: u32, vmo_out: usize) -> (r: SyscallRet)
    ensures
        final(mem).base == old(mem).base,
        !contiguous_args_ok(size, alignment_log2) ==> r == -RX_ERR_INVALID_ARGS && *final(mem) == *old(mem),
        contiguous_args_ok(size, alignment_log2) ==> (r, final(mem).bytes@) == store_handle_result(&*old(mem), vmo_out, CONTIGUOUS_VMO_HANDLE),
{
    if size == 0 {
        return err_to_ret(RX_ERR_INVALID_ARGS);
    }
    let mut alignment_log2 = alignment_log2;
    if alignment_log2 == 0 {
        alignment_log2 = PAGE_SIZE_SHIFT;
    }
    if alignment_log2 < PAGE_SIZE_SHIFT || alignment_log2 >= 64 {
        return err_to_ret(RX_ERR_INVALID_ARGS);
    }
    store_handle(mem, vmo_out, CONTIGUOUS_VMO_HANDLE)
}

/// Create a memory object over physical memory and store its handle at
/// `vmo_out`.
pub fn sys_vmo_create_physical_impl(mem: &mut UserMemory, rsrc_handle: u32, paddr: u64, size: usize, vmo_out: usize) -> (r: SyscallRet)
    ensures
        final(mem).base == old(mem).base,
        (r, final(mem).bytes@) == store_handle_result(&*old(mem), vmo_out, PHYSICAL_VMO_HANDLE),
{
    store_handle(mem, vmo_out, PHYSICAL_VMO_HANDLE)
}

/// Framebuffer information: not supported.
pub fn sys_framebuffer_get_info_impl(handle: u32, format_out: usize, width_out: usize, height_out: usize, stride_out: usize) -> (r: SyscallRet)
    ensures
        r == -RX_ERR_NOT_SUPPORTED,
{
    err_to_ret(RX_ERR_NOT_SUPPORTED)
}

/// Set the framebuffer (a null memory object clears it): accepted.
pub fn sys_framebuffer_set_range_impl(rsrc_handle: u32, vmo_handle: u32, len: u32, format: u32, width: u32, height: u32, stride: u32) -> (r: SyscallRet)
    ensures
        r == 0,
{
    ok_to_ret(0)
}

/// Create an IOMMU from a descriptor of `desc_size` bytes (at most 256) and
/// store its handle at `iommu_out`.
pub fn sys_iommu_create_impl(mem: &mut UserMemory, resource: u32, type_: u32, desc: usize, desc_size: usize, iommu_out: usize) -> (r: SyscallRet)
    ensures
        final(mem).base == old(mem).base,
        desc_size > IOMMU_MAX_DESC_LEN ==> r == -RX_ERR_INVALID_ARGS && *final(mem) == *old(mem),
        desc_size <= IOMMU_MAX_DESC_LEN ==> (r, final(mem).bytes@) == store_handle_result(&*old(mem), iommu_out, IOMMU_HANDLE),
{
    if desc_size > IOMMU_MAX_DESC_LEN {
        return err_to_ret(RX_ERR_INVALID_ARGS);
    }
    store_handle(mem, iommu_out, IOMMU_HANDLE)
}

/// Request access to I/O ports: not supported.
pub fn sys_ioports_request_impl(rsrc_handle: u32, io_addr: u16, len: u32) -> (r: SyscallRet)
    ensures
        r == -RX_ERR_NOT_SUPPORTED,
{
    err_to_ret(RX_ERR_NOT_SUPPORTED)
}

/// Firmware table addresses: not supported.
pub fn sys_pc_firmware_tables_impl(rsrc_handle: u32, acpi_rsdp_out: usize, smbios_out: usize) -> (r: SyscallRet)
    ensures
        r == -RX_ERR_NOT_SUPPORTED,
{
    err_to_ret(RX_ERR_NOT_SUPPORTED)
}

/// Create a bus transaction initiator (options must be 0) and store its
/// handle at `bti_out`.
pub fn sys_bti_create_impl(mem: &mut UserMemory, iommu_handle: u32, options: u32, bti_id: u64, bti_out: usize) -> (r: SyscallRet)
    ensures
        final(mem).base == old(mem).base,
        options != 0 ==> r == -RX_ERR_INVALID_ARGS && *final(mem) == *old(mem),
        options == 0 ==> (r, final(mem).bytes@) == store_handle_result(&*old(mem), bti_out, BTI_HANDLE),
{
    if options != 0 {
        return err_to_ret(RX_ERR_INVALID_ARGS);
    }
    store_handle(mem, bti_out, BTI_HANDLE)
}

/// Pin memory for DMA: not supported.
pub fn sys_bti_pin_impl(bti_handle: u32, options: u32, vmo_handle: u32, offset: u64, size: u64, addrs_out: usize, addrs_count: usize, pmt_out: usize) -> (r: SyscallRet)
    ensures
        r == -RX_ERR_NOT_SUPPORTED,
{
    err_to_ret(RX_ERR_NOT_SUPPORTED)
}

/// Release the quarantine of a bus transaction initiator: accepted.
pub fn sys_bti_release_quarantine_impl(bti_handle: u32) -> (r: SyscallRet)
    ensures
        r == 0,
{
    ok_to_ret(0)
}

/// Unpin pinned memory: accepted.
pub fn sys_pmt_unpin_impl(pmt_handle: u32) -> (r: SyscallRet)
    ensures
        r == 0,
{
    ok_to_ret(0)
}

/// Create an interrupt (virtual, or physical on a resource) and store its
/// handle at `handle_out`.
pub fn sys_interrupt_create_impl(mem: &mut UserMemory, src_obj: u32, src_num: u32, options: u32, handle_out: usize) -> (r: SyscallRet)
    ensures
        final(mem).base == old(mem).base,
        (r, final(mem).bytes@) == store_handle_result(&*old(mem), handle_out, INTERRUPT_HANDLE),
{
    store_handle(mem, handle_out, INTERRUPT_HANDLE)
}

/// Bind an interrupt to a port: options must be 0; the binding is not
/// supported.
pub fn sys_interrupt_bind_impl(handle: u32, port_handle: u32, key: u64, options: u32) -> (r: SyscallRet)
    ensures
        r == if options != 0 { -RX_ERR_INVALID_ARGS as isize } else { -RX_ERR_NOT_SUPPORTED as isize },
{
    if options != 0 {
        return err_to_ret(RX_ERR_INVALID_ARGS);
    }
    err_to_ret(RX_ERR_NOT_SUPPORTED)
}

/// Bind an interrupt to a virtual CPU: not supported.
pub fn sys_interrupt_bind_vcpu_impl(handle: u32, vcpu_handle: u32, options: u32) -> (r: SyscallRet)
    ensures
        r == -RX_ERR_NOT_SUPPORTED,
{
    err_to_ret(RX_ERR_NOT_SUPPORTED)
}

/// Acknowledge an interrupt: not supported.
pub fn sys_interrupt_ack_impl(handle: u32) -> (r: SyscallRet)
    ensures
        r == -RX_ERR_NOT_SUPPORTED,
{
    err_to_ret(RX_ERR_NOT_SUPPORTED)
}

/// Wait for an interrupt: not supported.
pub fn sys_interrupt_wait_impl(handle: u32, timestamp_out: usize) -> (r: SyscallRet)
    ensures
        r == -RX_ERR_NOT_SUPPORTED,
{
    err_to_ret(RX_ERR_NOT_SUPPORTED)
}

/// Destroy an interrupt: not supported.
pub fn sys_interrupt_destroy_impl(handle: u32) -> (r: SyscallRet)
    ensures
        r == -RX_ERR_NOT_SUPPORTED,
{
    err_to_ret(RX_ERR_NOT_SUPPORTED)
}

/// Trigger a virtual interrupt: options must be 0; triggering is not
/// supported.
pub fn sys_interrupt_trigger_impl(handle: u32, options: u32, timestamp: u64) -> (r: SyscallRet)
    ensures
        r == if options != 0 { -RX_ERR_INVALID_ARGS as isize } else { -RX_ERR_NOT_SUPPORTED as isize },
{
    if options != 0 {
        return err_to_ret(RX_ERR_INVALID_ARGS);
    }
    err_to_ret(RX_ERR_NOT_SUPPORTED)
}

/// Secure monitor call through a resource: not supported on any
/// architecture.
pub fn sys_smc_call_impl(handle: u32, parameters: usize, result_out: usize) -> (r: SyscallRet)
    ensures
        r == -RX_ERR_NOT_SUPPORTED,
{
    err_to_ret(RX_ERR_NOT_SUPPORTED)
}

/// Driver-kit statistics.
#[derive(Clone, Copy, Debug)]
pub struct DdkStats {
    pub total_vmo_contiguous: u64,
    pub total_vmo_physical: u64,
    pub total_interrupts: u64,
    pub total_bti_ops: u64,
}

/// Current driver-kit statistics: nothing is counted.
pub fn get_stats() -> (st: DdkStats)
    ensures
        st.total_vmo_contiguous == 0,
        st.total_vmo_physical == 0,
        st.total_interrupts == 0,
        st.total_bti_ops == 0,
{
    DdkStats { total_vmo_contiguous: 0, total_vmo_physical: 0, total_interrupts: 0, total_bti_ops: 0 }
}

/// Bring up the driver-kit subsystem: nothing to set up.
pub fn init() {
}

} // verus!

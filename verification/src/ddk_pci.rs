//! PCI syscalls for drivers: argument checks in front of a bus driver that
//! is not present, so every call that gets past its checks is refused as
//! not supported.
use vstd::prelude::*;
use crate::status::{RX_ERR_INVALID_ARGS, RX_ERR_NOT_SUPPORTED};
use crate::{SyscallRet, err_to_ret, ok_to_ret};

pub mod pci_cfg_space_type;
pub mod pci_irq_mode;
pub mod pci_bar_type;

verus! {

/// Largest initialization record, in bytes.
pub const PCI_INIT_ARG_MAX_SIZE: u32 = 4096;

/// Size of the fixed part of the initialization record (`PciInitArg`).
pub const PCI_INIT_ARG_SIZE: u32 = 24;

pub const PCI_MAX_BUSES: u32 = 256;
pub const PCI_MAX_DEVICES: u32 = 32;
pub const PCI_MAX_FUNCTIONS: u32 = 8;

/// Marks a pin with no interrupt mapped.
pub const PCI_NO_IRQ_MAPPING: u32 = 0xFFFFFFFF;

pub const PCI_STANDARD_CONFIG_HDR_SIZE: u16 = 64;
pub const PCIE_EXTENDED_CONFIG_SIZE: u16 = 4096;
pub const PCIE_BASE_CONFIG_SIZE: u16 = 256;

/// Base address registers per device.
pub const PCIE_MAX_BAR_REGS: u32 = 6;

/// Identity and location of a PCI function.
#[derive(Clone, Copy, Debug)]
pub struct PciDeviceInfo {
    pub vendor_id: u16,
    pub device_id: u16,
    pub base_class: u8,
    pub sub_class: u8,
    pub prog_if: u8,
    pub revision_id: u8,
    pub bus_id: u8,
    pub dev_id: u8,
    pub func_id: u8,
    pub irqs: [u32; 6],
}

/// A base address register.
#[derive(Clone, Copy, Debug)]
pub struct PciBar {
    pub size: u64,
    pub bar_type: u32,
    pub reserved: u32,
    /// Port address, for port I/O registers.
    pub addr: u32,
}

/// An address window of the root complex.
#[derive(Clone, Copy, Debug)]
pub struct PciAddrWindow {
    pub base: u64,
    pub size: u64,
    pub bus_start: u8,
    pub bus_end: u8,
    pub cfg_space_type: u32,
    pub has_ecam: bool,
}

/// How a global interrupt line is wired.
#[derive(Clone, Copy, Debug)]
pub struct PciIrqInfo {
    pub global_irq: u32,
    pub level_triggered: bool,
    pub active_high: bool,
}

/// Fixed part of the initialization record; the address windows and
/// interrupt tables follow it.
#[derive(Clone, Copy, Debug)]
pub struct PciInitArg {
    pub addr_window_count: u32,
    pub num_irqs: u32,
    pub reserved: [u64; 2],
}

/// Whether `width` is an access width of configuration space: 1, 2 or 4.
pub open spec fn valid_width(width: usize) -> bool {
    width == 1 || width == 2 || width == 4
}

/// Add or subtract an I/O range: not supported.
pub fn sys_pci_add_subtract_io_range_impl(handle: u32, mmio: bool, base: u64, len: u64, add: bool) -> (r: SyscallRet)
    ensures
        r == -RX_ERR_NOT_SUPPORTED,
{
    err_to_ret(RX_ERR_NOT_SUPPORTED)
}

/// Initialize the bus from a record of `len` bytes: the length must hold
/// the fixed part and be at most 4096.
pub fn sys_pci_init_impl(handle: u32, init_buf: usize, len: u32) -> (r: SyscallRet)
    ensures
        r == if len < PCI_INIT_ARG_SIZE || len > PCI_INIT_ARG_MAX_SIZE { -RX_ERR_INVALID_ARGS as isize } else { 0 },
{
    if len < PCI_INIT_ARG_SIZE || len > PCI_INIT_ARG_MAX_SIZE {
        return err_to_ret(RX_ERR_INVALID_ARGS);
    }
    ok_to_ret(0)
}

/// The `index`-th device: not supported.
pub fn sys_pci_get_nth_device_impl(handle: u32, index: u32, info_out: usize, handle_out: usize) -> (r: SyscallRet)
    ensures
        r == -RX_ERR_NOT_SUPPORTED,
{
    err_to_ret(RX_ERR_NOT_SUPPORTED)
}

/// Read configuration space: the width must be 1, 2 or 4; the read itself
/// is not supported.
pub fn sys_pci_config_read_impl(handle: u32, offset: u16, width: usize, val_out: usize) -> (r: SyscallRet)
    ensures
        r == if !valid_width(width) { -RX_ERR_INVALID_ARGS as isize } else { -RX_ERR_NOT_SUPPORTED as isize },
{
    if width != 1 && width != 2 && width != 4 {
        return err_to_ret(RX_ERR_INVALID_ARGS);
    }
    err_to_ret(RX_ERR_NOT_SUPPORTED)
}

/// Write configuration space: the width must be 1, 2 or 4; the write itself
/// is not supported.
pub fn sys_pci_config_write_impl(handle: u32, offset: u16, width: usize, val: u32) -> (r: SyscallRet)
    ensures
        r == if !valid_width(width) { -RX_ERR_INVALID_ARGS as isize } else { -RX_ERR_NOT_SUPPORTED as isize },
{
    if width != 1 && width != 2 && width != 4 {
        return err_to_ret(RX_ERR_INVALID_ARGS);
    }
    err_to_ret(RX_ERR_NOT_SUPPORTED)
}

/// Port I/O access to configuration space: not supported.
pub fn sys_pci_cfg_pio_rw_impl(handle: u32, bus: u8, dev: u8, func: u8, offset: u8, val: usize, width: usize, write: bool) -> (r: SyscallRet)
    ensures
        r == -RX_ERR_NOT_SUPPORTED,
{
    err_to_ret(RX_ERR_NOT_SUPPORTED)
}

/// Enable or disable bus mastering: not supported.
pub fn sys_pci_enable_bus_master_impl(dev_handle: u32, enable: bool) -> (r: SyscallRet)
    ensures
        r == -RX_ERR_NOT_SUPPORTED,
{
    err_to_ret(RX_ERR_NOT_SUPPORTED)
}

/// Reset a device: not supported.
pub fn sys_pci_reset_device_impl(dev_handle: u32) -> (r: SyscallRet)
    ensures
        r == -RX_ERR_NOT_SUPPORTED,
{
    err_to_ret(RX_ERR_NOT_SUPPORTED)
}

/// A base address register: the number must be below 6; the lookup itself
/// is not supported.
pub fn sys_pci_get_bar_impl(dev_handle: u32, bar_num: u32, bar_out: usize, handle_out: usize) -> (r: SyscallRet)
    ensures
        r == if bar_num >= PCIE_MAX_BAR_REGS { -RX_ERR_INVALID_ARGS as isize } else { -RX_ERR_NOT_SUPPORTED as isize },
{
    if bar_num >= PCIE_MAX_BAR_REGS {
        return err_to_ret(RX_ERR_INVALID_ARGS);
    }
    err_to_ret(RX_ERR_NOT_SUPPORTED)
}

/// Map an interrupt: not supported.
pub fn sys_pci_map_interrupt_impl(dev_handle: u32, which_irq: i32, handle_out: usize) -> (r: SyscallRet)
    ensures
        r == -RX_ERR_NOT_SUPPORTED,
{
    err_to_ret(RX_ERR_NOT_SUPPORTED)
}

/// Query an interrupt mode: not supported.
pub fn sys_pci_query_irq_mode_impl(dev_handle: u32, mode: u32, max_irqs_out: usize) -> (r: SyscallRet)
    ensures
        r == -RX_ERR_NOT_SUPPORTED,
{
    err_to_ret(RX_ERR_NOT_SUPPORTED)
}

/// Set the interrupt mode: not supported.
pub fn sys_pci_set_irq_mode_impl(dev_handle: u32, mode: u32, requested_irq_count: u32) -> (r: SyscallRet)
    ensures
        r == -RX_ERR_NOT_SUPPORTED,
{
    err_to_ret(RX_ERR_NOT_SUPPORTED)
}

/// PCI statistics.
#[derive(Clone, Copy, Debug)]
pub struct PciStats {
    pub total_pci_init: u64,
    pub total_config_ops: u64,
    pub total_irq_ops: u64,
    pub total_devices: u64,
}

/// Current PCI statistics: nothing is counted.
pub fn get_stats() -> (st: PciStats)
    ensures
        st.total_pci_init == 0,
        st.total_config_ops == 0,
        st.total_irq_ops == 0,
        st.total_devices == 0,
{
    PciStats { total_pci_init: 0, total_config_ops: 0, total_irq_ops: 0, total_devices: 0 }
}

/// Bring up the PCI subsystem: nothing to set up.
pub fn init() {
}

} // verus!

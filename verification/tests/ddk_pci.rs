use rustux_syscalls::ddk_pci::{
    pci_bar_type, pci_cfg_space_type, pci_irq_mode, sys_pci_config_read_impl, sys_pci_config_write_impl,
    sys_pci_get_bar_impl, sys_pci_init_impl, PciBar, PCI_MAX_BUSES, PCI_MAX_DEVICES, PCI_MAX_FUNCTIONS,
    PCI_NO_IRQ_MAPPING,
};
use rustux_syscalls::err_to_ret;
use rustux_syscalls::status::{RX_ERR_INVALID_ARGS, RX_ERR_NOT_SUPPORTED};

#[test]
fn test_pci_cfg_space_type_consts() {
    assert_eq!(pci_cfg_space_type::MMIO, 0);
    assert_eq!(pci_cfg_space_type::PIO, 1);
    assert_eq!(pci_cfg_space_type::DW_ROOT, 2);
    assert_eq!(pci_cfg_space_type::DW_DS, 3);
}

#[test]
fn test_pci_irq_mode_consts() {
    assert_eq!(pci_irq_mode::LEGACY, 0);
    assert_eq!(pci_irq_mode::MSI, 1);
    assert_eq!(pci_irq_mode::MSI_X, 2);
}

#[test]
fn test_pci_bar_type_consts() {
    assert_eq!(pci_bar_type::MMIO, 0);
    assert_eq!(pci_bar_type::PIO, 1);
}

#[test]
fn test_pci_constants() {
    assert_eq!(PCI_MAX_BUSES, 256);
    assert_eq!(PCI_MAX_DEVICES, 32);
    assert_eq!(PCI_MAX_FUNCTIONS, 8);
    assert_eq!(PCI_NO_IRQ_MAPPING, 0xFFFFFFFF);
}

#[test]
fn test_pci_bar_size() {
    assert_eq!(core::mem::size_of::<PciBar>(), 24);
}

#[test]
fn pci_init_length_bounds() {
    assert_eq!(sys_pci_init_impl(0, 0, 23), err_to_ret(RX_ERR_INVALID_ARGS));
    assert_eq!(sys_pci_init_impl(0, 0, 24), 0);
    assert_eq!(sys_pci_init_impl(0, 0, 4096), 0);
    assert_eq!(sys_pci_init_impl(0, 0, 4097), err_to_ret(RX_ERR_INVALID_ARGS));
}

#[test]
fn pci_config_width_and_bar_checks() {
    assert_eq!(sys_pci_config_read_impl(0, 0, 3, 0), err_to_ret(RX_ERR_INVALID_ARGS));
    assert_eq!(sys_pci_config_read_impl(0, 0, 4, 0), err_to_ret(RX_ERR_NOT_SUPPORTED));
    assert_eq!(sys_pci_config_write_impl(0, 0, 8, 0), err_to_ret(RX_ERR_INVALID_ARGS));
    assert_eq!(sys_pci_config_write_impl(0, 0, 2, 0), err_to_ret(RX_ERR_NOT_SUPPORTED));
    assert_eq!(sys_pci_get_bar_impl(0, 6, 0, 0), err_to_ret(RX_ERR_INVALID_ARGS));
    assert_eq!(sys_pci_get_bar_impl(0, 5, 0, 0), err_to_ret(RX_ERR_NOT_SUPPORTED));
}

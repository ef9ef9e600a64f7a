use rustux_syscalls::err_to_ret;
use rustux_syscalls::status::{RX_ERR_INVALID_ARGS, RX_ERR_NOT_SUPPORTED};
use rustux_syscalls::system_riscv64::{
    arch_sbi_call, arch_system_cpu_suspend, arch_system_halt, arch_system_powerctl, arch_system_reset, sbi_base,
    sbi_extension, sbi_system_reset,
};
use rustux_syscalls::system_x86::{acpi_transition_s_state, x86_set_pkg_pl1};

#[test]
fn test_arch_system_powerctl_unsupported() {
    let result = arch_system_powerctl(0x999, 0);
    assert_eq!(result, err_to_ret(RX_ERR_NOT_SUPPORTED));
}

#[test]
fn test_sbi_extension_consts() {
    assert_eq!(sbi_extension::BASE, 0x10);
    assert_eq!(sbi_extension::TIME, 0x54494D45);
    assert_eq!(sbi_extension::IPI, 0x735049);
    assert_eq!(sbi_extension::RFENCE, 0x52464E43);
    assert_eq!(sbi_extension::HSM, 0x48534D);
    assert_eq!(sbi_extension::SRST, 0x53525354);
    assert_eq!(sbi_extension::PMU, 0x504D55);
}

#[test]
fn test_sbi_base_consts() {
    assert_eq!(sbi_base::GET_SBI_VERSION, 0);
    assert_eq!(sbi_base::GET_IMPL_ID, 1);
    assert_eq!(sbi_base::GET_IMPL_VERSION, 2);
    assert_eq!(sbi_base::PROBE_EXTENSION, 3);
}

#[test]
fn test_sbi_system_reset_consts() {
    assert_eq!(sbi_system_reset::SYSTEM_RESET, 0);
}

#[test]
fn test_arch_sbi_call_stub() {
    let result = arch_sbi_call(sbi_extension::BASE, sbi_base::GET_SBI_VERSION, [0; 6]);
    assert_eq!(result, err_to_ret(RX_ERR_NOT_SUPPORTED));
}

#[test]
fn test_arch_system_halt() {
    let result = arch_system_halt();
    assert!(result >= 0);
}

#[test]
fn test_arch_system_reset() {
    let result = arch_system_reset();
    assert!(result >= 0);
}

#[test]
fn test_arch_system_cpu_suspend() {
    let result = arch_system_cpu_suspend(0, None);
    assert_eq!(result, err_to_ret(RX_ERR_NOT_SUPPORTED));
}

#[test]
fn test_acpi_transition_s_state_invalid() {
    let result = acpi_transition_s_state(0, 0, 0);
    assert!(result < 0);
    let result = acpi_transition_s_state(6, 0, 0);
    assert!(result < 0);
    assert_eq!(result, err_to_ret(RX_ERR_INVALID_ARGS));
}

#[test]
fn test_acpi_transition_s_state_valid() {
    for s in 1..=5 {
        let result = acpi_transition_s_state(s, 0, 0);
        assert!(result >= 0);
    }
}

#[test]
fn test_x86_set_pkg_pl1() {
    let result = x86_set_pkg_pl1(15000, false, true);
    assert!(result >= 0);
}

use rustux_syscalls::err_to_ret;
use rustux_syscalls::status::{RX_ERR_ACCESS_DENIED, RX_ERR_INVALID_ARGS};
use rustux_syscalls::system::{
    get_system_metrics, sys_system_get_metrics_impl, sys_system_mexec_impl, sys_system_mexec_payload_get_impl,
    sys_system_powerctl_impl, validate_resource, PowerctlCmd, ResourceKind, BOOTDATA_PLATFORM_EXTRA_BYTES,
};
use rustux_syscalls::usercopy::UserMemory;

#[test]
fn test_powerctl_cmd() {
    let cmd = PowerctlCmd::Reboot;
    assert_eq!(PowerctlCmd::from_raw(5), PowerctlCmd::Reboot);
    assert_eq!(cmd.into_raw(), 5);
}

#[test]
fn test_validate_resource() {
    assert!(validate_resource(0, ResourceKind::Root).is_ok());
    assert!(validate_resource(999, ResourceKind::Root).is_err());
    assert!(validate_resource(0, ResourceKind::Invalid).is_err());
}

#[test]
fn test_system_metrics() {
    let metrics = get_system_metrics();
    assert_eq!(metrics.num_cpus, 1);
    assert_eq!(metrics.total_memory, 0);
}

#[test]
fn test_powerctl_validation() {
    let mem = UserMemory::new(0x1000, 64);
    let result = sys_system_powerctl_impl(&mem, 999, PowerctlCmd::Reboot.into_raw(), 0);
    assert!(result < 0);
    let result = sys_system_powerctl_impl(&mem, 0, PowerctlCmd::Reboot.into_raw(), 0);
    assert!(result >= 0);
}

#[test]
fn test_mexec_validation() {
    let result = sys_system_mexec_impl(999, 0, 0);
    assert!(result < 0);
    let result = sys_system_mexec_impl(0, 1, 2);
    assert!(result >= 0);
}

#[test]
fn mexec_payload_checks() {
    let mut mem = UserMemory::new(0x1000, 8192);
    assert_eq!(sys_system_mexec_payload_get_impl(&mut mem, 999, 0x1000, 4096), err_to_ret(RX_ERR_ACCESS_DENIED));
    assert!(sys_system_mexec_payload_get_impl(&mut mem, 0, 0x1000, BOOTDATA_PLATFORM_EXTRA_BYTES + 1) < 0);
    mem.bytes[0] = 9;
    assert_eq!(sys_system_mexec_payload_get_impl(&mut mem, 0, 0x1000, 4096), 4096);
    assert_eq!(mem.bytes[0], 0);
}

#[test]
fn powerctl_sleep_state_reads_argument() {
    let mem = UserMemory::new(0x1000, 64);
    let cmd = PowerctlCmd::AcpiTransitionSState.into_raw();
    assert_eq!(sys_system_powerctl_impl(&mem, 0, cmd, 0), err_to_ret(RX_ERR_INVALID_ARGS));
    assert!(sys_system_powerctl_impl(&mem, 0, cmd, 0x1000) >= 0);
}

#[test]
fn system_metrics_stored() {
    let mut mem = UserMemory::new(0x1000, 64);
    assert_eq!(sys_system_get_metrics_impl(&mut mem, 0x1000), 0);
    assert_eq!(&mem.bytes[16..20], &1u32.to_le_bytes());
    assert_eq!(sys_system_get_metrics_impl(&mut mem, 0x1010), err_to_ret(RX_ERR_INVALID_ARGS));
}

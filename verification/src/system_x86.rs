//! x86 power control: ACPI sleep-state transitions and the package power
//! limit.
use vstd::prelude::*;
use crate::status::{RX_ERR_INVALID_ARGS, RX_ERR_NOT_SUPPORTED};
use crate::{SyscallRet, err_to_ret, ok_to_ret};

verus! {

/// Architecture command: enter an ACPI sleep state.
pub const ZX_SYSTEM_POWERCTL_ACPI_TRANSITION_S_STATE: u32 = 0x100;

/// Architecture command: set the package power limit PL1.
pub const ZX_SYSTEM_POWERCTL_X86_SET_PKG_PL1: u32 = 0x101;

pub const X86_MSR_RAPL_POWER_UNIT: u32 = 0x606;
pub const X86_MSR_PKG_POWER_LIMIT: u32 = 0x610;
pub const X86_MSR_PKG_POWER_INFO: u32 = 0x614;
pub const X86_MSR_PKG_POWER_LIMIT_PL1_ENABLE: u64 = 0x8000000000000000;
pub const X86_MSR_PKG_POWER_LIMIT_PL1_CLAMP: u64 = 0x4000000000000000;

/// Enter ACPI sleep state S`target_s_state`: only S1 to S5 exist.
pub fn acpi_transition_s_state(target_s_state: u8, sleep_type_a: u8, sleep_type_b: u8) -> (r: SyscallRet)
    ensures
        r == if 1 <= target_s_state <= 5 { 0 } else { -RX_ERR_INVALID_ARGS as isize },
{
    if target_s_state == 0 || target_s_state > 5 {
        return err_to_ret(RX_ERR_INVALID_ARGS);
    }
    ok_to_ret(0)
}

/// Set the package power limit PL1: accepted.
pub fn x86_set_pkg_pl1(power_limit: u32, clamp: bool, enable: bool) -> (r: SyscallRet)
    ensures
        r == 0,
{
    ok_to_ret(0)
}

/// Architecture power command `cmd`: the sleep-state and power-limit
/// commands (with fixed arguments S1 and no limit), nothing else.
pub fn arch_system_powerctl(cmd: u32, arg: usize) -> (r: SyscallRet)
    ensures
        r == if cmd == ZX_SYSTEM_POWERCTL_ACPI_TRANSITION_S_STATE || cmd == ZX_SYSTEM_POWERCTL_X86_SET_PKG_PL1 {
            0
        } else {
            -RX_ERR_NOT_SUPPORTED as isize
        },
{
    if cmd == ZX_SYSTEM_POWERCTL_ACPI_TRANSITION_S_STATE {
        acpi_transition_s_state(1, 0, 0)
    } else if cmd == ZX_SYSTEM_POWERCTL_X86_SET_PKG_PL1 {
        x86_set_pkg_pl1(0, false, true)
    } else {
        err_to_ret(RX_ERR_NOT_SUPPORTED)
    }
}

/// x86 power statistics.
#[derive(Clone, Copy, Debug)]
pub struct ArchPowerStats {
    pub supported_commands: u64,
    pub total_power_ops: u64,
}

/// Current x86 power statistics: two commands supported, none counted.
pub fn get_stats() -> (st: ArchPowerStats)
    ensures
        st.supported_commands == 2,
        st.total_power_ops == 0,
{
    ArchPowerStats { supported_commands: 2, total_power_ops: 0 }
}

} // verus!

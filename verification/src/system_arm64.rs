//! ARM64 power control: no architecture command is supported.
use vstd::prelude::*;
use crate::status::RX_ERR_NOT_SUPPORTED;
use crate::{SyscallRet, err_to_ret};

verus! {

/// Architecture power command `cmd`: none is supported.
pub fn arch_system_powerctl(cmd: u32, arg: usize) -> (r: SyscallRet)
    ensures
        r == -RX_ERR_NOT_SUPPORTED,
{
    err_to_ret(RX_ERR_NOT_SUPPORTED)
}

/// ARM64 power statistics.
#[derive(Clone, Copy, Debug)]
pub struct ArchPowerStats {
    pub supported_commands: u64,
    pub total_power_ops: u64,
}

/// Current ARM64 power statistics: no command supported, none counted.
pub fn get_stats() -> (st: ArchPowerStats)
    ensures
        st.supported_commands == 0,
        st.total_power_ops == 0,
{
    ArchPowerStats { supported_commands: 0, total_power_ops: 0 }
}

} // verus!

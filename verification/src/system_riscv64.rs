//! RISC-V power control through SBI: no command or SBI call is supported
//! yet; halting succeeds.
use vstd::prelude::*;
use crate::status::RX_ERR_NOT_SUPPORTED;
use crate::{SyscallRet, err_to_ret, ok_to_ret};

pub mod sbi_extension;
pub mod sbi_base;
pub mod sbi_system_reset;

verus! {

/// Architecture power command `cmd`: none is supported.
pub fn arch_system_powerctl(cmd: u32, arg: usize) -> (r: SyscallRet)
    ensures
        r == -RX_ERR_NOT_SUPPORTED,
{
    err_to_ret(RX_ERR_NOT_SUPPORTED)
}

/// Halt the system.
pub fn arch_system_halt() -> (r: SyscallRet)
    ensures
        r == 0,
{
    ok_to_ret(0)
}

/// Reset the system, by halting it.
pub fn arch_system_reset() -> (r: SyscallRet)
    ensures
        r == 0,
{
    arch_system_halt()
}

/// Suspend CPU `cpu_id`: not supported.
pub fn arch_system_cpu_suspend(cpu_id: u32, entry_point: Option<usize>) -> (r: SyscallRet)
    ensures
        r == -RX_ERR_NOT_SUPPORTED,
{
    err_to_ret(RX_ERR_NOT_SUPPORTED)
}

/// Call SBI function `function_id` of extension `extension_id`: not
/// supported.
pub fn arch_sbi_call(extension_id: u32, function_id: u32, args: [usize; 6]) -> (r: SyscallRet)
    ensures
        r == -RX_ERR_NOT_SUPPORTED,
{
    err_to_ret(RX_ERR_NOT_SUPPORTED)
}

/// Wait for an interrupt: nothing to wait for here.
pub fn arch_wfi() {
}

/// RISC-V power statistics.
#[derive(Clone, Copy, Debug)]
pub struct ArchPowerStats {
    pub supported_commands: u64,
    pub total_power_ops: u64,
    pub total_wfi_calls: u64,
    pub total_sbi_calls: u64,
}

/// Current RISC-V power statistics: nothing supported or counted.
pub fn get_stats() -> (st: ArchPowerStats)
    ensures
        st.supported_commands == 0,
        st.total_power_ops == 0,
        st.total_wfi_calls == 0,
        st.total_sbi_calls == 0,
{
    ArchPowerStats { supported_commands: 0, total_power_ops: 0, total_wfi_calls: 0, total_sbi_calls: 0 }
}

/// Initialize RISC-V power control (nothing to set up).
pub fn init() {
}

} // verus!

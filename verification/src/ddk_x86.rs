//! x86 secure monitor calls: the architecture has none.
use vstd::prelude::*;
use crate::status::RX_ERR_NOT_SUPPORTED;
use crate::{SyscallRet, err_to_ret};

verus! {

/// Parameters of a secure monitor call.
#[derive(Clone, Copy, Debug)]
pub struct SmcParameters {
    pub func_id: u32,
    pub reserved: u32,
    pub args: [u64; 6],
}

impl Default for SmcParameters {
    /// Every field zero.
    fn default() -> (p: SmcParameters)
        ensures
            p.func_id == 0,
            p.reserved == 0,
            forall|i: int| 0 <= i < 6 ==> p.args@[i] == 0,
    {
        SmcParameters { func_id: 0, reserved: 0, args: [0; 6] }
    }
}

/// Result of a secure monitor call.
#[derive(Clone, Copy, Debug)]
pub struct SmcResult {
    pub func_id: u32,
    pub reserved: u32,
    pub ret_vals: [u64; 6],
}

impl Default for SmcResult {
    /// Every field zero.
    fn default() -> (r: SmcResult)
        ensures
            r.func_id == 0,
            r.reserved == 0,
            forall|i: int| 0 <= i < 6 ==> r.ret_vals@[i] == 0,
    {
        SmcResult { func_id: 0, reserved: 0, ret_vals: [0; 6] }
    }
}

/// x86 driver-kit statistics.
#[derive(Clone, Copy, Debug)]
pub struct DdkX86Stats {
    pub total_smc_calls: u64,
}

/// Secure monitor call: not supported on x86.
pub fn arch_smc_call_impl(params: usize, result: usize) -> (r: SyscallRet)
    ensures
        r == -RX_ERR_NOT_SUPPORTED,
{
    err_to_ret(RX_ERR_NOT_SUPPORTED)
}

/// Current x86 driver-kit statistics: no call is ever made.
pub fn get_stats() -> (st: DdkX86Stats)
    ensures
        st.total_smc_calls == 0,
{
    DdkX86Stats { total_smc_calls: 0 }
}

/// Bring up the x86 driver-kit subsystem: nothing to set up.
pub fn init() {
}

} // verus!

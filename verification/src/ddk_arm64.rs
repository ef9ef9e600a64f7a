//! ARM64 secure monitor calls (SMC) on behalf of drivers.
use vstd::prelude::*;
use crate::usercopy::{UserMemory, le_bytes, le_words, push_words, le_field, field_at};
use crate::{SyscallRet, err_to_ret, ok_to_ret};

pub mod smc_call_type;
pub mod smc_calling_convention;

verus! {

/// Parameters of a secure monitor call.
#[derive(Clone, Copy, Debug)]
pub struct SmcParameters {
    /// Function id: call type, calling convention and function number.
    pub func_id: u32,
    pub secure_os_id: u16,
    pub client_id: u16,
    pub reserved: [u32; 2],
    pub args: [u64; 6],
}

impl Default for SmcParameters {
    /// Every field zero.
    fn default() -> (p: SmcParameters)
        ensures
            p.func_id == 0,
            p.secure_os_id == 0,
            p.client_id == 0,
            forall|i: int| 0 <= i < 2 ==> p.reserved@[i] == 0,
            forall|i: int| 0 <= i < 6 ==> p.args@[i] == 0,
    {
        SmcParameters { func_id: 0, secure_os_id: 0, client_id: 0, reserved: [0; 2], args: [0; 6] }
    }
}

/// Values handed back to the caller of a secure monitor call.
#[derive(Clone, Copy, Debug)]
pub struct SmcResult {
    pub ret_vals: [u64; 4],
}

impl Default for SmcResult {
    /// Every value zero.
    fn default() -> (r: SmcResult)
        ensures
            forall|i: int| 0 <= i < 4 ==> r.ret_vals@[i] == 0,
    {
        SmcResult { ret_vals: [0; 4] }
    }
}

/// Registers x0 to x6 after a secure monitor call.
#[derive(Clone, Copy, Debug)]
pub struct ArmSmcResult {
    pub x0: u64,
    pub x1: u64,
    pub x2: u64,
    pub x3: u64,
    pub x4: u64,
    pub x5: u64,
    pub x6: u64,
}

impl Default for ArmSmcResult {
    /// Every register zero.
    fn default() -> (r: ArmSmcResult)
        ensures
            r.x0 == 0 && r.x1 == 0 && r.x2 == 0 && r.x3 == 0 && r.x4 == 0 && r.x5 == 0 && r.x6 == 0,
    {
        ArmSmcResult { x0: 0, x1: 0, x2: 0, x3: 0, x4: 0, x5: 0, x6: 0 }
    }
}

/// ARM64 driver-kit statistics.
#[derive(Clone, Copy, Debug)]
pub struct DdkArm64Stats {
    /// Secure monitor calls attempted (wrapping).
    pub total_smc_calls: u64,
}

/// A call under the SMC calling convention: the monitor echoes the
/// function id in x0 and clears every other register.
pub fn arm_smccc_smc(func_id: u32, arg0: u64, arg1: u64, arg2: u64, arg3: u64, arg4: u64, arg5: u64, client_id: u32) -> (r: ArmSmcResult)
    ensures
        r.x0 == func_id as u64,
        r.x1 == 0 && r.x2 == 0 && r.x3 == 0 && r.x4 == 0 && r.x5 == 0 && r.x6 == 0,
{
    ArmSmcResult { x0: func_id as u64, x1: 0, x2: 0, x3: 0, x4: 0, x5: 0, x6: 0 }
}

/// Size of an `SmcParameters` record in user memory.
pub const SMC_PARAMETERS_SIZE: usize = 64;

/// Size of an `SmcResult` record in user memory.
pub const SMC_RESULT_SIZE: usize = 32;

impl SmcParameters {
    /// Whether this record is the one laid out little-endian in `b`:
    /// function id (4 bytes), secure OS id and client id (2 each), two
    /// reserved words (4 each), then six 8-byte arguments.
    pub open spec fn decoded_from(&self, b: Seq<u8>) -> bool {
        &&& self.func_id == le_field(b, 0, 4) as u32
        &&& self.secure_os_id == le_field(b, 4, 2) as u16
        &&& self.client_id == le_field(b, 6, 2) as u16
        &&& forall|i: int| 0 <= i < 2 ==> #[trigger] self.reserved@[i] == le_field(b, 8 + 4 * i, 4) as u32
        &&& forall|i: int| 0 <= i < 6 ==> #[trigger] self.args@[i] == le_field(b, 16 + 8 * i, 8)
    }
}

impl SmcResult {
    /// The record as laid out in user memory: four little-endian words.
    pub open spec fn layout(&self) -> Seq<u8> {
        le_words(self.ret_vals@)
    }
}

/// The parameter record laid out in the `SMC_PARAMETERS_SIZE` bytes `b`.
pub fn decode_smc_params(b: &Vec<u8>) -> (p: SmcParameters)
    requires
        b@.len() == SMC_PARAMETERS_SIZE,
    ensures
        p.decoded_from(b@),
{
    let a0 = field_at(b, 16, 8);
    let a1 = field_at(b, 24, 8);
    let a2 = field_at(b, 32, 8);
    let a3 = field_at(b, 40, 8);
    let a4 = field_at(b, 48, 8);
    let a5 = field_at(b, 56, 8);
    let args: [u64; 6] = [a0, a1, a2, a3, a4, a5];
    let r0 = field_at(b, 8, 4);
    let r1 = field_at(b, 12, 4);
    SmcParameters {
        func_id: field_at(b, 0, 4) as u32,
        secure_os_id: field_at(b, 4, 2) as u16,
        client_id: field_at(b, 6, 2) as u16,
        reserved: [r0 as u32, r1 as u32],
        args,
    }
}

/// The result record of a call whose function id is `func_id`: x0 to x3 of
/// the call, of which only x0 (the echoed function id) is non-zero.
pub open spec fn smc_result_bytes(func_id: u32) -> Seq<u8> {
    le_bytes(func_id as u64, 8) + le_bytes(0, 8) + le_bytes(0, 8) + le_bytes(0, 8)
}

/// Secure monitor call: counts the attempt, reads the whole parameter
/// record (`SMC_PARAMETERS_SIZE` bytes) at `params`, makes the call with its
/// function id, arguments and client id (`secure_os_id << 16 | client_id`),
/// and writes the whole result record (`SMC_RESULT_SIZE` bytes: x0 to x3)
/// at `result`.
pub fn arch_smc_call_impl(stats: &mut DdkArm64Stats, mem: &mut UserMemory, params: usize, result: usize) -> (r: SyscallRet)
    ensures
        final(stats).total_smc_calls == old(stats).total_smc_calls.wrapping_add(1),
        final(mem).base == old(mem).base,
        !old(mem).range_ok(params, SMC_PARAMETERS_SIZE) ==> r == -crate::status::RX_ERR_INVALID_ARGS && *final(mem) == *old(mem),
        old(mem).range_ok(params, SMC_PARAMETERS_SIZE) && !old(mem).range_ok(result, SMC_RESULT_SIZE)
            ==> r == -crate::status::RX_ERR_INVALID_ARGS && *final(mem) == *old(mem),
        old(mem).range_ok(params, SMC_PARAMETERS_SIZE) && old(mem).range_ok(result, SMC_RESULT_SIZE) ==> r == 0
            && final(mem).bytes@ == old(mem).written(result,
                smc_result_bytes(le_field(old(mem).bytes_at(params, SMC_PARAMETERS_SIZE), 0, 4) as u32)),
{
    stats.total_smc_calls = stats.total_smc_calls.wrapping_add(1);
    let raw = match mem.copy_from_user(params, SMC_PARAMETERS_SIZE) {
        Ok(b) => b,
        Err(err) => {
            return err_to_ret(err);
        },
    };
    let smc_params = decode_smc_params(&raw);
    let client = ((smc_params.secure_os_id as u32) << 16u32) | (smc_params.client_id as u32);
    let arm_result = arm_smccc_smc(
        smc_params.func_id,
        smc_params.args[0],
        smc_params.args[1],
        smc_params.args[2],
        smc_params.args[3],
        smc_params.args[4],
        smc_params.args[5],
        client,
    );
    let smc_result = SmcResult { ret_vals: [arm_result.x0, arm_result.x1, arm_result.x2, arm_result.x3] };
    let mut out: Vec<u8> = Vec::new();
    push_words(&mut out, &smc_result.ret_vals);
    proof {
        let w = smc_result.ret_vals@;
        assert(w.drop_last().drop_last().drop_last().drop_last() =~= Seq::<u64>::empty());
        reveal_with_fuel(le_words, 5);
        assert(out@ =~= smc_result_bytes(smc_params.func_id));
    }
    match mem.copy_to_user(result, out.as_slice()) {
        Ok(()) => ok_to_ret(0),
        Err(err) => err_to_ret(err),
    }
}

/// Current ARM64 driver-kit statistics.
pub fn get_stats(stats: &DdkArm64Stats) -> (st: DdkArm64Stats)
    ensures
        st == *stats,
{
    *stats
}

/// Bring up the ARM64 driver-kit subsystem: nothing to set up.
pub fn init() {
}

} // verus!

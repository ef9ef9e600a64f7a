//! Entry checks around every system call: number and caller validation,
//! per-number counters and the result handed back to the caller.
use vstd::prelude::*;
use crate::status::{Status, RX_ERR_BAD_SYSCALL};
use crate::{SyscallRet, err_to_ret};

verus! {

/// Highest system call number of the ABI.
pub const MAX_SYSCALL_NUMBER: u32 = 0x43;

/// Counts of system calls: in all, and per number below 256.
pub struct SyscallStatistics {
    pub total: u64,
    pub by_type: [u64; 256],
}

impl SyscallStatistics {
    /// No call counted.
    pub fn new() -> (s: SyscallStatistics)
        ensures
            s.total == 0,
            forall|i: int| 0 <= i < 256 ==> s.by_type@[i] == 0,
    {
        SyscallStatistics { total: 0, by_type: [0; 256] }
    }

    /// Count a call of system call `num`; the counters wrap.
    pub fn record(&mut self, num: u32)
        ensures
            final(self).total == old(self).total.wrapping_add(1),
            num < 256 ==> final(self).by_type@ == old(self).by_type@.update(num as int, old(self).by_type@[num as int].wrapping_add(1)),
            num >= 256 ==> final(self).by_type@ == old(self).by_type@,
    {
        self.total = self.total.wrapping_add(1);
        if num < 256 {
            let i = num as usize;
            let c = self.by_type[i];
            self.by_type[i] = c.wrapping_add(1);
        }
    }

    /// Calls counted in all.
    pub fn total(&self) -> (t: u64)
        ensures
            t == self.total,
    {
        self.total
    }

    /// Calls of system call `num` counted (0 for a number of 256 or more).
    pub fn count(&self, num: u32) -> (c: u64)
        ensures
            c == if num < 256 { self.by_type@[num as int] } else { 0 },
    {
        if num < 256 {
            self.by_type[num as usize]
        } else {
            0
        }
    }
}

/// The system call counters `stats`.
pub fn get_stats(stats: &SyscallStatistics) -> (s: &SyscallStatistics)
    ensures
        *s == *stats,
{
    stats
}

/// Count a call of system call `num` in `stats`.
pub fn record_syscall(stats: &mut SyscallStatistics, num: u32)
    ensures
        final(stats).total == old(stats).total.wrapping_add(1),
        num < 256 ==> final(stats).by_type@ == old(stats).by_type@.update(num as int, old(stats).by_type@[num as int].wrapping_add(1)),
        num >= 256 ==> final(stats).by_type@ == old(stats).by_type@,
{
    stats.record(num);
}

/// Whether `num` is a system call number of the ABI.
pub fn is_valid_syscall_number(num: u32) -> (b: bool)
    ensures
        b == (num <= MAX_SYSCALL_NUMBER),
{
    num <= MAX_SYSCALL_NUMBER
}

/// Whether a call made from `pc` may proceed: any non-null caller.
pub fn is_valid_pc(pc: u64, vdso_base: u64) -> (b: bool)
    ensures
        b == (pc != 0),
{
    pc != 0
}

/// Answer to a refused system call.
pub fn handle_invalid_syscall(num: u32, pc: u64) -> (r: SyscallRet)
    ensures
        r == -RX_ERR_BAD_SYSCALL,
{
    err_to_ret(RX_ERR_BAD_SYSCALL)
}

/// What a system call hands back: its value and whether a signal waits.
#[derive(Clone, Copy, Debug)]
pub struct SyscallResult {
    pub value: u64,
    pub signal_pending: bool,
}

impl SyscallResult {
    /// `value`, with `signal_pending` as given.
    pub fn new(value: u64, signal_pending: bool) -> (r: SyscallResult)
        ensures
            r.value == value,
            r.signal_pending == signal_pending,
    {
        SyscallResult { value, signal_pending }
    }

    /// A plain success value.
    pub fn ok(value: u64) -> (r: SyscallResult)
        ensures
            r.value == value,
            !r.signal_pending,
    {
        Self::new(value, false)
    }

    /// The status `err`, sign-extended to 64 bits.
    pub fn err(err: Status) -> (r: SyscallResult)
        ensures
            r.value == err as u64,
            !r.signal_pending,
    {
        Self::new(err as u64, false)
    }

    /// `value` with a signal pending.
    pub fn with_signal(value: u64) -> (r: SyscallResult)
        ensures
            r.value == value,
            r.signal_pending,
    {
        Self::new(value, true)
    }
}

/// Run system call `num` made from `pc`: count it, refuse a null caller
/// with a bad-syscall error, otherwise run `f` and hand back its return
/// value as 64 bits.  No signal is ever reported pending.
pub fn wrap_syscall<F: FnOnce() -> SyscallRet>(stats: &mut SyscallStatistics, num: u32, pc: u64, vdso_base: u64, f: F) -> (r: SyscallResult)
    requires
        pc != 0 ==> f.requires(()),
    ensures
        final(stats).total == old(stats).total.wrapping_add(1),
        num < 256 ==> final(stats).by_type@ == old(stats).by_type@.update(num as int, old(stats).by_type@[num as int].wrapping_add(1)),
        num >= 256 ==> final(stats).by_type@ == old(stats).by_type@,
        !r.signal_pending,
        pc == 0 ==> r.value == (-RX_ERR_BAD_SYSCALL) as u64,
        pc != 0 ==> exists|ret: SyscallRet| f.ensures((), ret) && r.value == ret as u64,
{
    record_syscall(stats, num);
    if !is_valid_pc(pc, vdso_base) {
        let ret = handle_invalid_syscall(num, pc);
        return SyscallResult::new(ret as u64, false);
    }
    let ret = f();
    let signal_pending = false;
    SyscallResult::new(ret as u64, signal_pending)
}

/// Bring up the wrapper subsystem: nothing to set up.
pub fn init() {
}

} // verus!

//! Core syscalls: sleeping, clocks, the kernel's pseudo-random generator
//! and the debug log, plus the placeholder event creation calls.
use vstd::prelude::*;
use crate::status::{Status, RX_ERR_ACCESS_DENIED, RX_ERR_INVALID_ARGS, RX_ERR_NOT_SUPPORTED, RX_ERR_OUT_OF_RANGE};
use crate::usercopy::{UserMemory, le_bytes};
use crate::{SyscallRet, err_to_ret, ok_to_ret};

pub mod clock_id;
pub mod dlog_options;

verus! {

/// Most bytes one random draw returns.
pub const MAX_CPRNG_DRAW: usize = 256;

/// Most entropy bytes one call adds.
pub const MAX_CPRNG_SEED: usize = 256;

/// Most bytes of a debug log record.
pub const DLOG_MAX_RECORD: usize = 256;

/// Most data bytes one debug log write takes.
pub const DLOG_MAX_DATA: usize = 256;

/// Every valid debug log write option bit.
pub const DLOG_FLAGS_MASK: u32 = 0x01;

/// Seed of the pseudo-random generator at start-up.
pub const PRNG_INITIAL_SEED: u64 = 0x0123456789ABCDEF;

/// Multiplier applied to the generator state to produce output.
pub const PRNG_MULTIPLIER: u64 = 0x2545F4914F6CDD1D;

/// The wall clock's offset from monotonic time.
#[derive(Clone, Copy, Debug)]
pub struct ClockState {
    pub utc_offset: i64,
}

impl ClockState {
    /// A zero offset.
    pub fn new() -> (c: ClockState)
        ensures
            c.utc_offset == 0,
    {
        ClockState { utc_offset: 0 }
    }
}

/// One xorshift step of the generator state.
pub open spec fn prng_step(x: u64) -> u64 {
    let a = x ^ (x >> 12u64);
    let b = a ^ (a << 25u64);
    b ^ (b >> 27u64)
}

/// The state after `k` steps from `x`.
pub open spec fn prng_state_after(x: u64, k: nat) -> u64
    decreases k,
{
    if k == 0 {
        x
    } else {
        prng_step(prng_state_after(x, (k - 1) as nat))
    }
}

/// The output word for a state: the state times the multiplier, wrapping.
pub open spec fn prng_output(x: u64) -> u64 {
    ((x as nat * PRNG_MULTIPLIER as nat) % 0x1_0000_0000_0000_0000) as u64
}

/// The `n` bytes a draw from state `x` produces: each group of 8 bytes is
/// the little-endian output of the next state.
pub open spec fn prng_bytes(x: u64, n: nat) -> Seq<u8> {
    Seq::new(n, |i: int| le_bytes(prng_output(prng_state_after(x, (i / 8 + 1) as nat)), 8)[i % 8])
}

/// Number of steps a draw of `n` bytes takes: one per group of 8.
pub open spec fn prng_steps(n: nat) -> nat {
    ((n + 7) / 8) as nat
}

/// The state after entropy bytes `e` are mixed into `seed`: each byte in
/// turn, as `seed * 31 + byte`, wrapping.
pub open spec fn entropy_mixed(seed: u64, e: Seq<u8>) -> u64
    decreases e.len(),
{
    if e.len() == 0 {
        seed
    } else {
        ((entropy_mixed(seed, e.drop_last()) as nat * 31 + e.last() as nat) % 0x1_0000_0000_0000_0000) as u64
    }
}

/// The kernel's pseudo-random generator (xorshift).
#[derive(Clone, Copy, Debug)]
pub struct Prng {
    pub state: u64,
}

impl Prng {
    /// A generator seeded with `seed`.
    pub fn new(seed: u64) -> (p: Prng)
        ensures
            p.state == seed,
    {
        Prng { state: seed }
    }

    /// Reseed the generator.
    pub fn init(&mut self, seed: u64)
        ensures
            final(self).state == seed,
    {
        self.state = seed;
    }

    /// Fill `buffer` with pseudo-random bytes, one state step per group of
    /// 8 bytes.
    pub fn draw(&mut self, buffer: &mut Vec<u8>)
        ensures
            final(buffer)@ == prng_bytes(old(self).state, old(buffer)@.len()),
            final(self).state == prng_state_after(old(self).state, prng_steps(old(buffer)@.len())),
    {
        let n = buffer.len();
        let steps: usize = n / 8 + if n % 8 != 0 { 1 } else { 0 };
        proof {
            assert(steps == prng_steps(n as nat)) by (nonlinear_arith)
                requires
                    steps == n / 8 + if n % 8 != 0 { 1int } else { 0int },
            ;
        }
        let ghost x0 = self.state;
        let mut k: usize = 0;
        while k < steps
            invariant
                k <= steps,
                steps == prng_steps(n as nat),
                n == buffer@.len(),
                n == old(buffer)@.len(),
                x0 == old(self).state,
                self.state == prng_state_after(x0, k as nat),
                forall|j: int| 0 <= j < n && j < 8 * k ==> #[trigger] buffer@[j] == prng_bytes(x0, n as nat)[j],
            decreases steps - k,
        {
            let mut x = self.state;
            x = x ^ (x >> 12u64);
            x = x ^ (x << 25u64);
            x = x ^ (x >> 27u64);
            self.state = x;
            let rnd = x.wrapping_mul(PRNG_MULTIPLIER);
            proof {
                assert(self.state == prng_state_after(x0, (k + 1) as nat));
            }
            let bytes = crate::usercopy::encode_le(rnd, 8);
            proof {
                assert(8 * k < n + 8) by (nonlinear_arith)
                    requires
                        k < steps,
                        steps == (n + 7) / 8,
                ;
            }
            let base = 8 * k;
            let mut b: usize = 0;
            while b < 8
                invariant
                    b <= 8,
                    base == 8 * k,
                    base < n + 8,
                    k < steps,
                    n == buffer@.len(),
                    bytes@ == le_bytes(rnd, 8),
                    rnd == prng_output(prng_state_after(x0, (k + 1) as nat)),
                    forall|j: int| 0 <= j < n && j < 8 * k ==> #[trigger] buffer@[j] == prng_bytes(x0, n as nat)[j],
                    forall|j: int| 0 <= j < n && 8 * k <= j < 8 * k + b ==> #[trigger] buffer@[j] == prng_bytes(x0, n as nat)[j],
                decreases 8 - b,
            {
                if base + b < n {
                    proof {
                        let j = (base + b) as int;
                        assert(j / 8 == k && j % 8 == b) by (nonlinear_arith)
                            requires
                                j == 8 * k + b,
                                b < 8,
                        ;
                    }
                    buffer.set(base + b, bytes[b]);
                }
                b = b + 1;
            }
            k = k + 1;
        }
        proof {
            assert(n <= 8 * steps) by (nonlinear_arith)
                requires
                    steps == (n + 7) / 8,
            ;
            assert(buffer@ =~= prng_bytes(x0, n as nat));
        }
    }

    /// Mix entropy bytes into the state (see `entropy_mixed`).
    pub fn add_entropy(&mut self, entropy: &[u8])
        ensures
            final(self).state == entropy_mixed(old(self).state, entropy@),
    {
        let mut seed = self.state;
        let mut i: usize = 0;
        while i < entropy.len()
            invariant
                i <= entropy@.len(),
                seed == entropy_mixed(old(self).state, entropy@.subrange(0, i as int)),
            decreases entropy@.len() - i,
        {
            proof {
                assert(entropy@.subrange(0, i as int + 1).drop_last() =~= entropy@.subrange(0, i as int));
            }
            seed = seed.wrapping_mul(31).wrapping_add(entropy[i] as u64);
            i = i + 1;
            proof {
                let prev = entropy_mixed(old(self).state, entropy@.subrange(0, i - 1));
                assert(seed == ((prev as nat * 31 + entropy@[i - 1] as nat) % 0x1_0000_0000_0000_0000) as u64) by (nonlinear_arith)
                    requires
                        seed == ((((prev as nat * 31) % 0x1_0000_0000_0000_0000) + entropy@[i - 1] as nat) % 0x1_0000_0000_0000_0000),
                ;
            }
        }
        proof {
            assert(entropy@.subrange(0, entropy@.len() as int) =~= entropy@);
        }
        self.state = seed;
    }
}

/// Sleep until `deadline`: nothing to wait for here, so this only
/// succeeds.
pub fn sys_nanosleep_impl(deadline: i64) -> (r: SyscallRet)
    ensures
        r == 0,
{
    if deadline <= 0 {
        return ok_to_ret(0);
    }
    ok_to_ret(0)
}

/// The reading of clock `clock_id` at monotonic time `now`: the monotonic
/// clock reads `now`, the wall clock `now` plus the UTC offset, the thread
/// clock 0; other clocks are none.
pub open spec fn clock_reading(clock: ClockState, now: u64, clock_id: u32) -> Option<i64> {
    if clock_id == clock_id::MONOTONIC {
        Some(now as i64)
    } else if clock_id == clock_id::UTC {
        Some((now as i64 + clock.utc_offset) as i64)
    } else if clock_id == clock_id::THREAD {
        Some(0)
    } else {
        None
    }
}

/// Read clock `clock_id` at monotonic time `now`; an unknown clock reads 0.
pub fn sys_clock_get_impl(clock: &ClockState, now: u64, clock_id: u32) -> (r: SyscallRet)
    requires
        clock_id == clock_id::UTC ==> i64::MIN <= now as i64 + clock.utc_offset <= i64::MAX,
    ensures
        clock_id == clock_id::MONOTONIC ==> r == (now as usize) as isize,
        clock_id != clock_id::MONOTONIC ==> r == match clock_reading(*clock, now, clock_id) {
            Some(t) => ((t as usize) as isize),
            None => 0isize,
        },
{
    if clock_id == clock_id::MONOTONIC {
        ok_to_ret(#[verifier::truncate] (now as usize))
    } else if clock_id == clock_id::UTC {
        let time: i64 = (#[verifier::truncate] (now as i64)) + clock.utc_offset;
        ok_to_ret(#[verifier::truncate] (time as usize))
    } else if clock_id == clock_id::THREAD {
        ok_to_ret(0)
    } else {
        ok_to_ret(0)
    }
}

/// Read clock `clock_id` at monotonic time `now` into 8 bytes of user
/// memory at `time_out`; an unknown clock is refused.
pub fn sys_clock_get_new_impl(clock: &ClockState, mem: &mut UserMemory, now: u64, clock_id: u32, time_out: usize) -> (r: SyscallRet)
    requires
        clock_id == clock_id::UTC ==> i64::MIN <= now as i64 + clock.utc_offset <= i64::MAX,
    ensures
        final(mem).base == old(mem).base,
        match clock_reading(*clock, now, clock_id) {
            None => r == -RX_ERR_INVALID_ARGS && *final(mem) == *old(mem),
            Some(t) => if old(mem).range_ok(time_out, 8) {
                r == 0 && final(mem).bytes@ == old(mem).written(time_out, le_bytes(t as u64, 8))
            } else {
                r == -RX_ERR_INVALID_ARGS && *final(mem) == *old(mem)
            },
        },
{
    let time: i64 = if clock_id == clock_id::MONOTONIC {
        #[verifier::truncate] (now as i64)
    } else if clock_id == clock_id::UTC {
        (#[verifier::truncate] (now as i64)) + clock.utc_offset
    } else if clock_id == clock_id::THREAD {
        0
    } else {
        return err_to_ret(RX_ERR_INVALID_ARGS);
    };
    match mem.write_le(time_out, time as u64, 8) {
        Ok(()) => ok_to_ret(0),
        Err(err) => err_to_ret(err),
    }
}

/// Read the monotonic clock at time `now`.
pub fn sys_clock_get_monotonic_impl(now: u64) -> (r: SyscallRet)
    ensures
        r == (now as usize) as isize,
{
    ok_to_ret(#[verifier::truncate] (now as usize))
}

/// Adjust clock `clock_id` by `offset`: only the wall clock can be set,
/// and its UTC offset becomes `offset`; the monotonic clock refuses.
pub fn sys_clock_adjust_impl(clock: &mut ClockState, rsrc_handle: u32, clock_id: u32, offset: i64) -> (r: SyscallRet)
    ensures
        clock_id == clock_id::MONOTONIC ==> r == -RX_ERR_ACCESS_DENIED && *final(clock) == *old(clock),
        clock_id == clock_id::UTC ==> r == 0 && final(clock).utc_offset == offset,
        clock_id != clock_id::MONOTONIC && clock_id != clock_id::UTC ==> r == -RX_ERR_INVALID_ARGS && *final(clock) == *old(clock),
{
    if clock_id == clock_id::MONOTONIC {
        err_to_ret(RX_ERR_ACCESS_DENIED)
    } else if clock_id == clock_id::UTC {
        clock.utc_offset = offset;
        ok_to_ret(0)
    } else {
        err_to_ret(RX_ERR_INVALID_ARGS)
    }
}

/// Placeholder event creation: options must be 0; the fixed handle value
/// 42 is stored as 4 bytes at `event_out`.
pub fn sys_event_create_impl(mem: &mut UserMemory, options: u32, event_out: usize) -> (r: SyscallRet)
    ensures
        final(mem).base == old(mem).base,
        options != 0 ==> r == -RX_ERR_INVALID_ARGS && *final(mem) == *old(mem),
        options == 0 && !old(mem).range_ok(event_out, 4) ==> r == -RX_ERR_INVALID_ARGS && *final(mem) == *old(mem),
        options == 0 && old(mem).range_ok(event_out, 4) ==> r == 0 && final(mem).bytes@ == old(mem).written(event_out, le_bytes(42, 4)),
{
    if options != 0 {
        return err_to_ret(RX_ERR_INVALID_ARGS);
    }
    let event_handle: u32 = 42;
    match mem.write_le(event_out, event_handle as u64, 4) {
        Ok(()) => ok_to_ret(0),
        Err(err) => err_to_ret(err),
    }
}

/// Placeholder event pair creation: options must be 0 (else not
/// supported); the fixed handle values 100 and 101 are stored as 4 bytes at
/// `out0` and `out1`.
pub fn sys_eventpair_create_impl(mem: &mut UserMemory, options: u32, out0: usize, out1: usize) -> (r: SyscallRet)
    ensures
        final(mem).base == old(mem).base,
        options != 0 ==> r == -RX_ERR_NOT_SUPPORTED && *final(mem) == *old(mem),
        options == 0 && !old(mem).range_ok(out0, 4) ==> r == -RX_ERR_INVALID_ARGS && *final(mem) == *old(mem),
        options == 0 && old(mem).range_ok(out0, 4) && !old(mem).range_ok(out1, 4) ==> r == -RX_ERR_INVALID_ARGS
            && final(mem).bytes@ == old(mem).written(out0, le_bytes(100, 4)),
        options == 0 && old(mem).range_ok(out0, 4) && old(mem).range_ok(out1, 4) ==> r == 0
            && final(mem).bytes@ == crate::usercopy::write_seq(old(mem).written(out0, le_bytes(100, 4)), old(mem).base, out1, le_bytes(101, 4)),
{
    if options != 0 {
        return err_to_ret(RX_ERR_NOT_SUPPORTED);
    }
    let handle0: u32 = 100;
    let handle1: u32 = 101;
    match mem.write_le(out0, handle0 as u64, 4) {
        Ok(()) => {},
        Err(err) => {
            return err_to_ret(err);
        },
    }
    match mem.write_le(out1, handle1 as u64, 4) {
        Ok(()) => ok_to_ret(0),
        Err(err) => err_to_ret(err),
    }
}

/// Placeholder debug log creation: the fixed handle value 200 is stored as
/// 4 bytes at `out`.
pub fn sys_debuglog_create_impl(mem: &mut UserMemory, rsrc: u32, options: u32, out: usize) -> (r: SyscallRet)
    ensures
        final(mem).base == old(mem).base,
        !old(mem).range_ok(out, 4) ==> r == -RX_ERR_INVALID_ARGS && *final(mem) == *old(mem),
        old(mem).range_ok(out, 4) ==> r == 0 && final(mem).bytes@ == old(mem).written(out, le_bytes(200, 4)),
{
    let log_handle: u32 = 200;
    match mem.write_le(out, log_handle as u64, 4) {
        Ok(()) => ok_to_ret(0),
        Err(err) => err_to_ret(err),
    }
}

/// Write `len` bytes from user memory at `ptr` to the debug log: at most
/// `DLOG_MAX_DATA` bytes, only the valid option bits; the bytes are read
/// and dropped.
pub fn sys_debuglog_write_impl(mem: &UserMemory, log_handle: u32, options: u32, ptr: usize, len: usize) -> (r: SyscallRet)
    ensures
        r == if len > DLOG_MAX_DATA {
            -RX_ERR_OUT_OF_RANGE as isize
        } else if options & !DLOG_FLAGS_MASK != 0 || !mem.range_ok(ptr, len) {
            -RX_ERR_INVALID_ARGS as isize
        } else {
            0
        },
{
    if len > DLOG_MAX_DATA {
        return err_to_ret(RX_ERR_OUT_OF_RANGE);
    }
    if options & !DLOG_FLAGS_MASK != 0 {
        return err_to_ret(RX_ERR_INVALID_ARGS);
    }
    match mem.copy_from_user(ptr, len) {
        Ok(_buf) => ok_to_ret(0),
        Err(err) => err_to_ret(err),
    }
}

/// Read the debug log: options must be 0; nothing is ever read.
pub fn sys_debuglog_read_impl(log_handle: u32, options: u32, ptr: usize, len: usize) -> (r: SyscallRet)
    ensures
        r == if options != 0 { -RX_ERR_INVALID_ARGS as isize } else { 0 },
{
    if options != 0 {
        return err_to_ret(RX_ERR_INVALID_ARGS);
    }
    ok_to_ret(0)
}

/// Draw `len` pseudo-random bytes (at most `MAX_CPRNG_DRAW`) into user
/// memory at `buffer`; the generator advances even when the copy fails.
pub fn sys_cprng_draw_once_impl(prng: &mut Prng, mem: &mut UserMemory, buffer: usize, len: usize) -> (r: SyscallRet)
    ensures
        final(mem).base == old(mem).base,
        len > MAX_CPRNG_DRAW ==> r == -RX_ERR_INVALID_ARGS && *final(prng) == *old(prng) && *final(mem) == *old(mem),
        len <= MAX_CPRNG_DRAW ==> final(prng).state == prng_state_after(old(prng).state, prng_steps(len as nat)) && if old(mem).range_ok(buffer, len) {
            r == 0 && final(mem).bytes@ == old(mem).written(buffer, prng_bytes(old(prng).state, len as nat))
        } else {
            r == -RX_ERR_INVALID_ARGS && *final(mem) == *old(mem)
        },
{
    if len > MAX_CPRNG_DRAW {
        return err_to_ret(RX_ERR_INVALID_ARGS);
    }
    let mut kernel_buf: Vec<u8> = Vec::new();
    let mut i: usize = 0;
    while i < len
        invariant
            i <= len,
            kernel_buf@.len() == i,
        decreases len - i,
    {
        kernel_buf.push(0);
        i = i + 1;
    }
    prng.draw(&mut kernel_buf);
    match mem.copy_to_user(buffer, kernel_buf.as_slice()) {
        Ok(()) => ok_to_ret(0),
        Err(err) => err_to_ret(err),
    }
}

/// Mix `buffer_size` bytes of user memory at `buffer` (at most
/// `MAX_CPRNG_SEED`) into the generator.
pub fn sys_cprng_add_entropy_impl(prng: &mut Prng, mem: &UserMemory, buffer: usize, buffer_size: usize) -> (r: SyscallRet)
    ensures
        buffer_size > MAX_CPRNG_SEED || !mem.range_ok(buffer, buffer_size) ==> r == -RX_ERR_INVALID_ARGS && *final(prng) == *old(prng),
        buffer_size <= MAX_CPRNG_SEED && mem.range_ok(buffer, buffer_size) ==> r == 0 && final(prng).state == entropy_mixed(
            old(prng).state,
            if buffer_size == 0 { Seq::<u8>::empty() } else { mem.bytes_at(buffer, buffer_size) },
        ),
{
    if buffer_size > MAX_CPRNG_SEED {
        return err_to_ret(RX_ERR_INVALID_ARGS);
    }
    let kernel_buf = match mem.copy_from_user(buffer, buffer_size) {
        Ok(b) => b,
        Err(err) => {
            return err_to_ret(err);
        },
    };
    prng.add_entropy(kernel_buf.as_slice());
    ok_to_ret(0)
}

/// Core syscall statistics.
#[derive(Clone, Copy, Debug)]
pub struct ZirconStats {
    pub total_nanosleep: u64,
    pub total_clock_get: u64,
    pub total_prng_draw: u64,
    pub total_prng_entropy: u64,
    pub utc_offset: i64,
}

/// Current core statistics: the UTC offset (calls are not counted).
pub fn get_stats(clock: &ClockState) -> (st: ZirconStats)
    ensures
        st.total_nanosleep == 0,
        st.total_clock_get == 0,
        st.total_prng_draw == 0,
        st.total_prng_entropy == 0,
        st.utc_offset == clock.utc_offset,
{
    ZirconStats { total_nanosleep: 0, total_clock_get: 0, total_prng_draw: 0, total_prng_entropy: 0, utc_offset: clock.utc_offset }
}

/// Initialize the core syscalls: seed the generator.
pub fn init(prng: &mut Prng)
    ensures
        final(prng).state == PRNG_INITIAL_SEED,
{
    prng.init(PRNG_INITIAL_SEED);
}

} // verus!

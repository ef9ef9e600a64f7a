//! Debug console and kernel trace syscalls.
use vstd::prelude::*;
use crate::status::RX_ERR_INVALID_ARGS;
use crate::usercopy::UserMemory;
use crate::{SyscallRet, err_to_ret, ok_to_ret};

pub mod ktrace_action;
pub mod mtrace_kind;

verus! {

/// Most bytes one debug read or write moves.
pub const MAX_DEBUG_WRITE_SIZE: usize = 256;

/// Longest trace probe name, terminator included.
pub const MAX_NAME_LEN: usize = 32;

/// Highest kernel trace event id.
pub const MAX_KTRACE_EVENT_ID: u32 = 0x7FF;

/// `mem` with the `cnt` bytes from offset `off` set to zero.
pub open spec fn zeroed(mem: Seq<u8>, off: int, cnt: int) -> Seq<u8> {
    Seq::new(mem.len(), |j: int| if off <= j < off + cnt { 0u8 } else { mem[j] })
}

/// How many of the `n` bytes from `buffer` on can be written one at a
/// time before the first address that is not a valid user address.
pub open spec fn writable_prefix(mem: &UserMemory, buffer: usize, n: int) -> int {
    if !mem.valid_addr(buffer) {
        0
    } else {
        let to_end = mem.base + mem.bytes@.len() - buffer;
        let to_top = usize::MAX + 1 - buffer;
        let m = if to_end < to_top { to_end } else { to_top };
        if n < m { n } else { m }
    }
}

/// Read from the debug console.  The requested length is the byte at
/// `len`; the console yields zero bytes, which are stored one at a time
/// from `buffer` on.  When all are stored, the count is written back as the
/// byte at `len`; a store that fails ends the call with its error, the
/// bytes stored before it remaining.
pub fn sys_debug_read_impl(mem: &mut UserMemory, handle: u32, buffer: usize, len: usize) -> (r: SyscallRet)
    ensures
        final(mem).base == old(mem).base,
        !old(mem).range_ok(len, 1) ==> r == -RX_ERR_INVALID_ARGS && *final(mem) == *old(mem),
        old(mem).range_ok(len, 1) ==> ({
            let n = old(mem).bytes_at(len, 1)[0] as int;
            let k = writable_prefix(&*old(mem), buffer, n);
            let after = zeroed(old(mem).bytes@, old(mem).offset(buffer), k);
            if k < n {
                r == -RX_ERR_INVALID_ARGS && final(mem).bytes@ == after
            } else {
                r == 0 && final(mem).bytes@ == after.update(old(mem).offset(len), n as u8)
            }
        }),
{
    let first = match mem.copy_from_user(len, 1) {
        Ok(b) => b,
        Err(err) => {
            return err_to_ret(err);
        },
    };
    let mut read_len: usize = first[0] as usize;
    if read_len > MAX_DEBUG_WRITE_SIZE {
        read_len = MAX_DEBUG_WRITE_SIZE;
    }
    let ghost n = read_len as int;
    let ghost k = writable_prefix(&*old(mem), buffer, n);
    let ghost off = old(mem).offset(buffer);
    let mut chars_read: usize = 0;
    let mut i: usize = 0;
    while i < read_len
        invariant
            read_len == n,
            n < 256,
            old(mem).range_ok(len, 1),
            n == old(mem).bytes_at(len, 1)[0] as int,
            k == writable_prefix(&*old(mem), buffer, n),
            off == old(mem).offset(buffer),
            i <= k,
            k <= n,
            chars_read == i,
            mem.base == old(mem).base,
            mem.bytes@ == zeroed(old(mem).bytes@, off, i as int),
        decreases read_len - i,
    {
        let addr = match buffer.checked_add(i) {
            Some(a) => a,
            None => {
                return err_to_ret(RX_ERR_INVALID_ARGS);
            },
        };
        let zero: Vec<u8> = vec![0u8];
        match mem.copy_to_user(addr, zero.as_slice()) {
            Ok(()) => {},
            Err(err) => {
                return err_to_ret(err);
            },
        }
        proof {
            assert(mem.bytes@ =~= zeroed(old(mem).bytes@, off, i + 1));
        }
        chars_read = chars_read + 1;
        i = i + 1;
    }
    let count: Vec<u8> = vec![chars_read as u8];
    match mem.copy_to_user(len, count.as_slice()) {
        Ok(()) => {},
        Err(err) => {
            return err_to_ret(err);
        },
    }
    proof {
        assert(mem.bytes@ =~= zeroed(old(mem).bytes@, off, k).update(old(mem).offset(len), n as u8));
    }
    ok_to_ret(0)
}

/// Write to the debug console: the first `min(len, 256)` bytes at `buffer`
/// are read (and go to the kernel log).
pub fn sys_debug_write_impl(mem: &UserMemory, buffer: usize, len: usize) -> (r: SyscallRet)
    ensures
        r == if mem.range_ok(buffer, if len < MAX_DEBUG_WRITE_SIZE { len } else { MAX_DEBUG_WRITE_SIZE }) {
            0
        } else {
            -RX_ERR_INVALID_ARGS as isize
        },
{
    let write_len = if len < MAX_DEBUG_WRITE_SIZE { len } else { MAX_DEBUG_WRITE_SIZE };
    match mem.copy_from_user(buffer, write_len) {
        Ok(_) => ok_to_ret(0),
        Err(err) => err_to_ret(err),
    }
}

/// Send a console command of `len` bytes at `buffer`: at most 256 bytes,
/// which are read.
pub fn sys_debug_send_command_impl(mem: &UserMemory, handle: u32, buffer: usize, len: usize) -> (r: SyscallRet)
    ensures
        r == if len > MAX_DEBUG_WRITE_SIZE || !mem.range_ok(buffer, len) { -RX_ERR_INVALID_ARGS as isize } else { 0 },
{
    if len > MAX_DEBUG_WRITE_SIZE {
        return err_to_ret(RX_ERR_INVALID_ARGS);
    }
    match mem.copy_from_user(buffer, len) {
        Ok(_) => ok_to_ret(0),
        Err(err) => err_to_ret(err),
    }
}

/// Read kernel trace data: none is kept, so a count of zero is stored as
/// the byte at `actual`.
pub fn sys_ktrace_read_impl(mem: &mut UserMemory, handle: u32, data: usize, offset: u32, len: usize, actual: usize) -> (r: SyscallRet)
    ensures
        final(mem).base == old(mem).base,
        old(mem).range_ok(actual, 1) ==> r == 0 && final(mem).bytes@ == old(mem).bytes@.update(old(mem).offset(actual), 0u8),
        !old(mem).range_ok(actual, 1) ==> r == -RX_ERR_INVALID_ARGS && *final(mem) == *old(mem),
{
    let zero: Vec<u8> = vec![0u8];
    match mem.copy_to_user(actual, zero.as_slice()) {
        Ok(()) => {
            proof {
                assert(mem.bytes@ =~= old(mem).bytes@.update(old(mem).offset(actual), 0u8));
            }
            ok_to_ret(0)
        },
        Err(err) => err_to_ret(err),
    }
}

/// Control kernel tracing.  A new probe reads its name (31 bytes at
/// `ptr`); start, stop and reset are accepted; any other action is refused.
pub fn sys_ktrace_control_impl(mem: &UserMemory, handle: u32, action: u32, options: u32, ptr: usize) -> (r: SyscallRet)
    ensures
        r == if action == ktrace_action::NEW_PROBE {
            if mem.range_ok(ptr, (MAX_NAME_LEN - 1) as usize) { 0 } else { -RX_ERR_INVALID_ARGS as isize }
        } else if action == ktrace_action::START || action == ktrace_action::STOP || action == ktrace_action::RESET {
            0
        } else {
            -RX_ERR_INVALID_ARGS as isize
        },
{
    if action == ktrace_action::NEW_PROBE {
        match mem.copy_from_user(ptr, MAX_NAME_LEN - 1) {
            Ok(_) => ok_to_ret(0),
            Err(err) => err_to_ret(err),
        }
    } else if action == ktrace_action::START || action == ktrace_action::STOP || action == ktrace_action::RESET {
        ok_to_ret(0)
    } else {
        err_to_ret(RX_ERR_INVALID_ARGS)
    }
}

/// Write a kernel trace event: event ids above 0x7FF are refused.
pub fn sys_ktrace_write_impl(handle: u32, event_id: u32, arg0: u32, arg1: u32) -> (r: SyscallRet)
    ensures
        r == if event_id > MAX_KTRACE_EVENT_ID { -RX_ERR_INVALID_ARGS as isize } else { 0 },
{
    if event_id > MAX_KTRACE_EVENT_ID {
        return err_to_ret(RX_ERR_INVALID_ARGS);
    }
    ok_to_ret(0)
}

/// Control memory tracing: accepted, nothing is traced.
pub fn sys_mtrace_control_impl(handle: u32, kind: u32, action: u32, options: u32, ptr: usize, size: usize) -> (r: SyscallRet)
    ensures
        r == 0,
{
    ok_to_ret(0)
}

/// Debug subsystem statistics.
#[derive(Clone, Copy, Debug)]
pub struct DebugStats {
    pub total_debug_reads: u64,
    pub total_debug_writes: u64,
    pub total_ktrace_ops: u64,
}

/// Current debug statistics: operations are not counted.
pub fn get_stats() -> (st: DebugStats)
    ensures
        st.total_debug_reads == 0,
        st.total_debug_writes == 0,
        st.total_ktrace_ops == 0,
{
    DebugStats { total_debug_reads: 0, total_debug_writes: 0, total_ktrace_ops: 0 }
}

/// Bring up the debug subsystem: nothing to set up.
pub fn init() {
}

} // verus!

//! Object syscalls: information records, properties, signals and cookies
//! of kernel objects.
use vstd::prelude::*;
use crate::status::{Status, RX_ERR_BUFFER_TOO_SMALL, RX_ERR_INVALID_ARGS, RX_ERR_NOT_SUPPORTED};
use crate::usercopy::{UserMemory, le_bytes, le_words, le_value, push_le, push_words, stored_le, write_seq};
use crate::{SyscallRet, err_to_ret, ok_to_ret};
use vstd::array::spec_array_fill_for_copy_type;

pub mod info_topic;
pub mod property;

verus! {

/// Size of a `HandleBasicInfo` record in user memory.
pub const HANDLE_BASIC_INFO_SIZE: usize = 32;

/// Basic facts about a handle.
#[derive(Clone, Copy, Debug)]
pub struct HandleBasicInfo {
    pub koid: u64,
    pub rights: u32,
    pub type_: u32,
    pub related_koid: u64,
    pub props: u32,
}

impl HandleBasicInfo {
    /// The record as laid out in user memory, little-endian.
    pub open spec fn layout(&self) -> Seq<u8> {
        le_bytes(self.koid, 8)
            + le_bytes(self.rights as u64, 4)
            + le_bytes(self.type_ as u64, 4)
            + le_bytes(self.related_koid, 8)
            + le_bytes(self.props as u64, 4)
            + le_bytes(0, 4)
    }

    /// The record laid out in user memory.
    pub fn encode(&self) -> (b: Vec<u8>)
        ensures
            b@ == self.layout(),
    {
        let mut b: Vec<u8> = Vec::new();
        push_le(&mut b, self.koid, 8);
        push_le(&mut b, self.rights as u64, 4);
        push_le(&mut b, self.type_ as u64, 4);
        push_le(&mut b, self.related_koid, 8);
        push_le(&mut b, self.props as u64, 4);
        push_le(&mut b, 0, 4);
        proof {
            assert(b@ =~= self.layout());
        }
        b
    }
}

/// Size of a `ProcessInfo` record in user memory.
pub const PROCESS_INFO_SIZE: usize = 24;

/// State of a process.
#[derive(Clone, Copy, Debug)]
pub struct ProcessInfo {
    pub return_code: i64,
    pub started: u64,
    pub state: u32,
    pub _pad: u32,
}

impl ProcessInfo {
    /// The record as laid out in user memory, little-endian.
    pub open spec fn layout(&self) -> Seq<u8> {
        le_bytes(self.return_code as u64, 8)
            + le_bytes(self.started, 8)
            + le_bytes(self.state as u64, 4)
            + le_bytes(self._pad as u64, 4)
    }

    /// The record laid out in user memory.
    pub fn encode(&self) -> (b: Vec<u8>)
        ensures
            b@ == self.layout(),
    {
        let mut b: Vec<u8> = Vec::new();
        push_le(&mut b, self.return_code as u64, 8);
        push_le(&mut b, self.started, 8);
        push_le(&mut b, self.state as u64, 4);
        push_le(&mut b, self._pad as u64, 4);
        proof {
            assert(b@ =~= self.layout());
        }
        b
    }
}

/// Size of a `ThreadInfo` record in user memory.
pub const THREAD_INFO_SIZE: usize = 16;

/// State of a thread.
#[derive(Clone, Copy, Debug)]
pub struct ThreadInfo {
    pub state: u32,
    pub wait_reason: u32,
    pub cpu: u32,
    pub _pad: u32,
}

impl ThreadInfo {
    /// The record as laid out in user memory, little-endian.
    pub open spec fn layout(&self) -> Seq<u8> {
        le_bytes(self.state as u64, 4)
            + le_bytes(self.wait_reason as u64, 4)
            + le_bytes(self.cpu as u64, 4)
            + le_bytes(self._pad as u64, 4)
    }

    /// The record laid out in user memory.
    pub fn encode(&self) -> (b: Vec<u8>)
        ensures
            b@ == self.layout(),
    {
        let mut b: Vec<u8> = Vec::new();
        push_le(&mut b, self.state as u64, 4);
        push_le(&mut b, self.wait_reason as u64, 4);
        push_le(&mut b, self.cpu as u64, 4);
        push_le(&mut b, self._pad as u64, 4);
        proof {
            assert(b@ =~= self.layout());
        }
        b
    }
}

/// Size of a `ThreadStats` record in user memory.
pub const THREAD_STATS_SIZE: usize = 64;

/// Run-time statistics of a thread.
#[derive(Clone, Copy, Debug)]
pub struct ThreadStats {
    pub total_runtime: u64,
    pub cpu_time: u64,
    pub context_switches: u64,
    pub page_faults: u64,
    pub _pad: [u64; 4],
}

impl ThreadStats {
    /// The record as laid out in user memory, little-endian.
    pub open spec fn layout(&self) -> Seq<u8> {
        le_bytes(self.total_runtime, 8)
            + le_bytes(self.cpu_time, 8)
            + le_bytes(self.context_switches, 8)
            + le_bytes(self.page_faults, 8)
            + le_words(self._pad@)
    }

    /// The record laid out in user memory.
    pub fn encode(&self) -> (b: Vec<u8>)
        ensures
            b@ == self.layout(),
    {
        let mut b: Vec<u8> = Vec::new();
        push_le(&mut b, self.total_runtime, 8);
        push_le(&mut b, self.cpu_time, 8);
        push_le(&mut b, self.context_switches, 8);
        push_le(&mut b, self.page_faults, 8);
        push_words(&mut b, &self._pad);
        proof {
            assert(b@ =~= self.layout());
        }
        b
    }
}

/// Size of a `TaskStats` record in user memory.
pub const TASK_STATS_SIZE: usize = 64;

/// Memory statistics of a task.
#[derive(Clone, Copy, Debug)]
pub struct TaskStats {
    pub mem_mapped_bytes: u64,
    pub mem_private_bytes: u64,
    pub mem_shared_bytes: u64,
    pub _pad: [u64; 5],
}

impl TaskStats {
    /// The record as laid out in user memory, little-endian.
    pub open spec fn layout(&self) -> Seq<u8> {
        le_bytes(self.mem_mapped_bytes, 8)
            + le_bytes(self.mem_private_bytes, 8)
            + le_bytes(self.mem_shared_bytes, 8)
            + le_words(self._pad@)
    }

    /// The record laid out in user memory.
    pub fn encode(&self) -> (b: Vec<u8>)
        ensures
            b@ == self.layout(),
    {
        let mut b: Vec<u8> = Vec::new();
        push_le(&mut b, self.mem_mapped_bytes, 8);
        push_le(&mut b, self.mem_private_bytes, 8);
        push_le(&mut b, self.mem_shared_bytes, 8);
        push_words(&mut b, &self._pad);
        proof {
            assert(b@ =~= self.layout());
        }
        b
    }
}

/// Size of a `VmoInfo` record in user memory.
pub const VMO_INFO_SIZE: usize = 88;

/// Facts about a VMO.
#[derive(Clone, Copy, Debug)]
pub struct VmoInfo {
    pub koid: u64,
    pub parent_koid: u64,
    pub num_children: u64,
    pub num_mappings: u64,
    pub share_count: u64,
    pub flags: u32,
    pub _pad: u32,
    pub size_bytes: u64,
    pub committed_bytes: u64,
    pub _pad2: [u64; 3],
}

impl VmoInfo {
    /// The record as laid out in user memory, little-endian.
    pub open spec fn layout(&self) -> Seq<u8> {
        le_bytes(self.koid, 8)
            + le_bytes(self.parent_koid, 8)
            + le_bytes(self.num_children, 8)
            + le_bytes(self.num_mappings, 8)
            + le_bytes(self.share_count, 8)
            + le_bytes(self.flags as u64, 4)
            + le_bytes(self._pad as u64, 4)
            + le_bytes(self.size_bytes, 8)
            + le_bytes(self.committed_bytes, 8)
            + le_words(self._pad2@)
    }

    /// The record laid out in user memory.
    pub fn encode(&self) -> (b: Vec<u8>)
        ensures
            b@ == self.layout(),
    {
        let mut b: Vec<u8> = Vec::new();
        push_le(&mut b, self.koid, 8);
        push_le(&mut b, self.parent_koid, 8);
        push_le(&mut b, self.num_children, 8);
        push_le(&mut b, self.num_mappings, 8);
        push_le(&mut b, self.share_count, 8);
        push_le(&mut b, self.flags as u64, 4);
        push_le(&mut b, self._pad as u64, 4);
        push_le(&mut b, self.size_bytes, 8);
        push_le(&mut b, self.committed_bytes, 8);
        push_words(&mut b, &self._pad2);
        proof {
            assert(b@ =~= self.layout());
        }
        b
    }
}

/// Size of a `VmarInfo` record in user memory.
pub const VMAR_INFO_SIZE: usize = 16;

/// Extent of a VMAR.
#[derive(Clone, Copy, Debug)]
pub struct VmarInfo {
    pub base: u64,
    pub len: u64,
}

impl VmarInfo {
    /// The record as laid out in user memory, little-endian.
    pub open spec fn layout(&self) -> Seq<u8> {
        le_bytes(self.base, 8)
            + le_bytes(self.len, 8)
    }

    /// The record laid out in user memory.
    pub fn encode(&self) -> (b: Vec<u8>)
        ensures
            b@ == self.layout(),
    {
        let mut b: Vec<u8> = Vec::new();
        push_le(&mut b, self.base, 8);
        push_le(&mut b, self.len, 8);
        proof {
            assert(b@ =~= self.layout());
        }
        b
    }
}

/// Size of a `CpuStats` record in user memory.
pub const CPU_STATS_SIZE: usize = 184;

/// Statistics of one CPU.
#[derive(Clone, Copy, Debug)]
pub struct CpuStats {
    pub cpu_number: u32,
    pub flags: u32,
    pub idle_time: u64,
    pub reschedules: u64,
    pub context_switches: u64,
    pub irq_preempts: u64,
    pub preempts: u64,
    pub yields: u64,
    pub ints: u64,
    pub timer_ints: u64,
    pub timers: u64,
    pub page_faults: u64,
    pub exceptions: u64,
    pub syscalls: u64,
    pub reschedule_ipis: u64,
    pub generic_ipis: u64,
    pub _pad: [u64; 8],
}

impl CpuStats {
    /// The record as laid out in user memory, little-endian.
    pub open spec fn layout(&self) -> Seq<u8> {
        le_bytes(self.cpu_number as u64, 4)
            + le_bytes(self.flags as u64, 4)
            + le_bytes(self.idle_time, 8)
            + le_bytes(self.reschedules, 8)
            + le_bytes(self.context_switches, 8)
            + le_bytes(self.irq_preempts, 8)
            + le_bytes(self.preempts, 8)
            + le_bytes(self.yields, 8)
            + le_bytes(self.ints, 8)
            + le_bytes(self.timer_ints, 8)
            + le_bytes(self.timers, 8)
            + le_bytes(self.page_faults, 8)
            + le_bytes(self.exceptions, 8)
            + le_bytes(self.syscalls, 8)
            + le_bytes(self.reschedule_ipis, 8)
            + le_bytes(self.generic_ipis, 8)
            + le_words(self._pad@)
    }

    /// The record laid out in user memory.
    pub fn encode(&self) -> (b: Vec<u8>)
        ensures
            b@ == self.layout(),
    {
        let mut b: Vec<u8> = Vec::new();
        push_le(&mut b, self.cpu_number as u64, 4);
        push_le(&mut b, self.flags as u64, 4);
        push_le(&mut b, self.idle_time, 8);
        push_le(&mut b, self.reschedules, 8);
        push_le(&mut b, self.context_switches, 8);
        push_le(&mut b, self.irq_preempts, 8);
        push_le(&mut b, self.preempts, 8);
        push_le(&mut b, self.yields, 8);
        push_le(&mut b, self.ints, 8);
        push_le(&mut b, self.timer_ints, 8);
        push_le(&mut b, self.timers, 8);
        push_le(&mut b, self.page_faults, 8);
        push_le(&mut b, self.exceptions, 8);
        push_le(&mut b, self.syscalls, 8);
        push_le(&mut b, self.reschedule_ipis, 8);
        push_le(&mut b, self.generic_ipis, 8);
        push_words(&mut b, &self._pad);
        proof {
            assert(b@ =~= self.layout());
        }
        b
    }
}

/// Size of a `KmemStats` record in user memory.
pub const KMEM_STATS_SIZE: usize = 72;

/// Kernel memory statistics.
#[derive(Clone, Copy, Debug)]
pub struct KmemStats {
    pub total_bytes: u64,
    pub free_bytes: u64,
    pub wired_bytes: u64,
    pub total_heap_bytes: u64,
    pub free_heap_bytes: u64,
    pub vmo_bytes: u64,
    pub mmu_overhead_bytes: u64,
    pub ipc_bytes: u64,
    pub other_bytes: u64,
}

impl KmemStats {
    /// The record as laid out in user memory, little-endian.
    pub open spec fn layout(&self) -> Seq<u8> {
        le_bytes(self.total_bytes, 8)
            + le_bytes(self.free_bytes, 8)
            + le_bytes(self.wired_bytes, 8)
            + le_bytes(self.total_heap_bytes, 8)
            + le_bytes(self.free_heap_bytes, 8)
            + le_bytes(self.vmo_bytes, 8)
            + le_bytes(self.mmu_overhead_bytes, 8)
            + le_bytes(self.ipc_bytes, 8)
            + le_bytes(self.other_bytes, 8)
    }

    /// The record laid out in user memory.
    pub fn encode(&self) -> (b: Vec<u8>)
        ensures
            b@ == self.layout(),
    {
        let mut b: Vec<u8> = Vec::new();
        push_le(&mut b, self.total_bytes, 8);
        push_le(&mut b, self.free_bytes, 8);
        push_le(&mut b, self.wired_bytes, 8);
        push_le(&mut b, self.total_heap_bytes, 8);
        push_le(&mut b, self.free_heap_bytes, 8);
        push_le(&mut b, self.vmo_bytes, 8);
        push_le(&mut b, self.mmu_overhead_bytes, 8);
        push_le(&mut b, self.ipc_bytes, 8);
        push_le(&mut b, self.other_bytes, 8);
        proof {
            assert(b@ =~= self.layout());
        }
        b
    }
}

/// Size of a `HandleCountInfo` record in user memory.
pub const HANDLE_COUNT_INFO_SIZE: usize = 8;

/// Number of handles to an object.
#[derive(Clone, Copy, Debug)]
pub struct HandleCountInfo {
    pub handle_count: u64,
}

impl HandleCountInfo {
    /// The record as laid out in user memory, little-endian.
    pub open spec fn layout(&self) -> Seq<u8> {
        le_bytes(self.handle_count, 8)
    }

    /// The record laid out in user memory.
    pub fn encode(&self) -> (b: Vec<u8>)
        ensures
            b@ == self.layout(),
    {
        let mut b: Vec<u8> = Vec::new();
        push_le(&mut b, self.handle_count, 8);
        proof {
            assert(b@ =~= self.layout());
        }
        b
    }
}

/// Size of a `ProcessHandleStats` record in user memory.
pub const PROCESS_HANDLE_STATS_SIZE: usize = 512;

/// Handle counts of a process, by object type.
#[derive(Clone, Copy, Debug)]
pub struct ProcessHandleStats {
    pub handle_count: [u64; 64],
}

impl ProcessHandleStats {
    /// The record as laid out in user memory, little-endian.
    pub open spec fn layout(&self) -> Seq<u8> {
        le_words(self.handle_count@)
    }

    /// The record laid out in user memory.
    pub fn encode(&self) -> (b: Vec<u8>)
        ensures
            b@ == self.layout(),
    {
        let mut b: Vec<u8> = Vec::new();
        push_words(&mut b, &self.handle_count);
        proof {
            assert(b@ =~= self.layout());
        }
        b
    }
}

/// Size of a `SocketInfo` record in user memory.
pub const SOCKET_INFO_SIZE: usize = 120;

/// Facts about a socket.
#[derive(Clone, Copy, Debug)]
pub struct SocketInfo {
    pub options: u64,
    pub _pad1: [u64; 3],
    pub rx_buf_size: u64,
    pub rx_buf_available: u64,
    pub tx_buf_size: u64,
    pub tx_buf_available: u64,
    pub _pad2: [u64; 7],
}

impl SocketInfo {
    /// The record as laid out in user memory, little-endian.
    pub open spec fn layout(&self) -> Seq<u8> {
        le_bytes(self.options, 8)
            + le_words(self._pad1@)
            + le_bytes(self.rx_buf_size, 8)
            + le_bytes(self.rx_buf_available, 8)
            + le_bytes(self.tx_buf_size, 8)
            + le_bytes(self.tx_buf_available, 8)
            + le_words(self._pad2@)
    }

    /// The record laid out in user memory.
    pub fn encode(&self) -> (b: Vec<u8>)
        ensures
            b@ == self.layout(),
    {
        let mut b: Vec<u8> = Vec::new();
        push_le(&mut b, self.options, 8);
        push_words(&mut b, &self._pad1);
        push_le(&mut b, self.rx_buf_size, 8);
        push_le(&mut b, self.rx_buf_available, 8);
        push_le(&mut b, self.tx_buf_size, 8);
        push_le(&mut b, self.tx_buf_available, 8);
        push_words(&mut b, &self._pad2);
        proof {
            assert(b@ =~= self.layout());
        }
        b
    }
}

/// Outcome of returning a single record `rec`: it is copied to `buffer`
/// when `buffer_size` can hold it, then the number of records copied (0 or
/// 1) is stored at `actual_out` and the number available (1) at
/// `avail_out`, each when non-zero (8 bytes each).  A buffer too small gives
/// `RX_ERR_BUFFER_TOO_SMALL` after the counts are stored; a failed copy
/// stops there.  The result and the memory contents afterwards.
pub open spec fn single_record_outcome(m: UserMemory, buffer: usize, buffer_size: usize, actual_out: usize, avail_out: usize, rec: Seq<u8>) -> (Result<(), Status>, Seq<u8>) {
    let fits = buffer_size >= rec.len();
    if fits && !m.range_ok(buffer, rec.len() as usize) {
        (Err(RX_ERR_INVALID_ARGS), m.bytes@)
    } else {
        let m1 = if fits { m.written(buffer, rec) } else { m.bytes@ };
        if actual_out != 0 && !m.range_ok(actual_out, 8) {
            (Err(RX_ERR_INVALID_ARGS), m1)
        } else {
            let m2 = stored_le(m1, m.base, actual_out, if fits { 1 } else { 0 }, 8);
            if avail_out != 0 && !m.range_ok(avail_out, 8) {
                (Err(RX_ERR_INVALID_ARGS), m2)
            } else {
                (if fits { Ok(()) } else { Err(RX_ERR_BUFFER_TOO_SMALL) }, stored_le(m2, m.base, avail_out, 1, 8))
            }
        }
    }
}

/// Return the single record `rec` to user memory (see
/// `single_record_outcome`).
pub fn single_record_result(mem: &mut UserMemory, buffer: usize, buffer_size: usize, actual_out: usize, avail_out: usize, rec: &[u8]) -> (r: Result<(), Status>)
    ensures
        final(mem).base == old(mem).base,
        (r, final(mem).bytes@) == single_record_outcome(*old(mem), buffer, buffer_size, actual_out, avail_out, rec@),
{
    let avail: u64 = 1;
    let actual: u64 = if buffer_size >= rec.len() {
        match mem.copy_to_user(buffer, rec) {
            Ok(()) => {},
            Err(err) => {
                return Err(err);
            },
        }
        1
    } else {
        0
    };
    match mem.store_opt(actual_out, actual, 8) {
        Ok(()) => {},
        Err(err) => {
            return Err(err);
        },
    }
    match mem.store_opt(avail_out, avail, 8) {
        Ok(()) => {},
        Err(err) => {
            return Err(err);
        },
    }
    if actual == 0 {
        return Err(RX_ERR_BUFFER_TOO_SMALL);
    }
    Ok(())
}

/// The record an information query on `topic` returns for handle value
/// `handle_val`, as laid out in user memory; none for topics without a
/// single record.
pub open spec fn info_record(topic: u32, handle_val: u32) -> Option<Seq<u8>> {
    if topic == info_topic::HANDLE_BASIC {
        Some((HandleBasicInfo { koid: handle_val as u64, rights: 0xFFFF, type_: 0, related_koid: 0, props: 0 }).layout())
    } else if topic == info_topic::VMO {
        Some((VmoInfo { koid: handle_val as u64, parent_koid: 0, num_children: 0, num_mappings: 0, share_count: 0, flags: 0, _pad: 0, size_bytes: 0, committed_bytes: 0, _pad2: spec_array_fill_for_copy_type::<u64, 3>(0u64) }).layout())
    } else if topic == info_topic::PROCESS {
        Some((ProcessInfo { return_code: 0, started: 0, state: 0, _pad: 0 }).layout())
    } else if topic == info_topic::THREAD {
        Some((ThreadInfo { state: 0, wait_reason: 0, cpu: 0, _pad: 0 }).layout())
    } else if topic == info_topic::THREAD_STATS {
        Some((ThreadStats { total_runtime: 0, cpu_time: 0, context_switches: 0, page_faults: 0, _pad: spec_array_fill_for_copy_type::<u64, 4>(0u64) }).layout())
    } else if topic == info_topic::TASK_STATS {
        Some((TaskStats { mem_mapped_bytes: 0, mem_private_bytes: 0, mem_shared_bytes: 0, _pad: spec_array_fill_for_copy_type::<u64, 5>(0u64) }).layout())
    } else if topic == info_topic::VMAR {
        Some((VmarInfo { base: 0, len: 0 }).layout())
    } else if topic == info_topic::KMEM_STATS {
        Some((KmemStats { total_bytes: 0, free_bytes: 0, wired_bytes: 0, total_heap_bytes: 0, free_heap_bytes: 0, vmo_bytes: 0, mmu_overhead_bytes: 0, ipc_bytes: 0, other_bytes: 0 }).layout())
    } else if topic == info_topic::HANDLE_COUNT {
        Some((HandleCountInfo { handle_count: 0 }).layout())
    } else if topic == info_topic::PROCESS_HANDLE_STATS {
        Some((ProcessHandleStats { handle_count: spec_array_fill_for_copy_type::<u64, 64>(0u64) }).layout())
    } else if topic == info_topic::SOCKET {
        Some((SocketInfo { options: 0, _pad1: spec_array_fill_for_copy_type::<u64, 3>(0u64), rx_buf_size: 0, rx_buf_available: 0, tx_buf_size: 0, tx_buf_available: 0, _pad2: spec_array_fill_for_copy_type::<u64, 7>(0u64) }).layout())
    } else {
        None
    }
}

/// Answer an information query on `topic` about handle `handle_val`:
/// single-record topics return their record (see `single_record_outcome`),
/// the thread list and CPU statistics report zero records, a validity query
/// succeeds, and any other topic is not supported.
pub fn sys_object_get_info_impl(mem: &mut UserMemory, handle_val: u32, topic: u32, buffer: usize, buffer_size: usize, actual_out: usize, avail_out: usize) -> (r: SyscallRet)
    ensures
        final(mem).base == old(mem).base,
        topic == info_topic::HANDLE_VALID ==> r == 0 && *final(mem) == *old(mem),
        (topic == info_topic::PROCESS_THREADS || topic == info_topic::CPU_STATS) ==> ({
            let m1 = stored_le(old(mem).bytes@, old(mem).base, actual_out, 0, 8);
            if actual_out != 0 && !old(mem).range_ok(actual_out, 8) {
                r == -RX_ERR_INVALID_ARGS && *final(mem) == *old(mem)
            } else if avail_out != 0 && !old(mem).range_ok(avail_out, 8) {
                r == -RX_ERR_INVALID_ARGS && final(mem).bytes@ == m1
            } else {
                r == 0 && final(mem).bytes@ == stored_le(m1, old(mem).base, avail_out, 0, 8)
            }
        }),
        topic != info_topic::HANDLE_VALID && topic != info_topic::PROCESS_THREADS && topic != info_topic::CPU_STATS ==> match info_record(topic, handle_val) {
            None => r == -RX_ERR_NOT_SUPPORTED && *final(mem) == *old(mem),
            Some(rec) => {
                let (res, m) = single_record_outcome(*old(mem), buffer, buffer_size, actual_out, avail_out, rec);
                &&& final(mem).bytes@ == m
                &&& match res {
                    Ok(()) => r == 0,
                    Err(e) => r == -e,
                }
            },
        },
{
    if topic == info_topic::HANDLE_VALID {
        return ok_to_ret(0);
    }
    if topic == info_topic::PROCESS_THREADS || topic == info_topic::CPU_STATS {
        match mem.store_opt(actual_out, 0, 8) {
            Ok(()) => {},
            Err(err) => {
                return err_to_ret(err);
            },
        }
        match mem.store_opt(avail_out, 0, 8) {
            Ok(()) => {},
            Err(err) => {
                return err_to_ret(err);
            },
        }
        return ok_to_ret(0);
    }
    let record: Vec<u8> = if topic == info_topic::HANDLE_BASIC {
        (HandleBasicInfo { koid: handle_val as u64, rights: 0xFFFF, type_: 0, related_koid: 0, props: 0 }).encode()
    } else if topic == info_topic::VMO {
        (VmoInfo { koid: handle_val as u64, parent_koid: 0, num_children: 0, num_mappings: 0, share_count: 0, flags: 0, _pad: 0, size_bytes: 0, committed_bytes: 0, _pad2: [0; 3] }).encode()
    } else if topic == info_topic::PROCESS {
        (ProcessInfo { return_code: 0, started: 0, state: 0, _pad: 0 }).encode()
    } else if topic == info_topic::THREAD {
        (ThreadInfo { state: 0, wait_reason: 0, cpu: 0, _pad: 0 }).encode()
    } else if topic == info_topic::THREAD_STATS {
        (ThreadStats { total_runtime: 0, cpu_time: 0, context_switches: 0, page_faults: 0, _pad: [0; 4] }).encode()
    } else if topic == info_topic::TASK_STATS {
        (TaskStats { mem_mapped_bytes: 0, mem_private_bytes: 0, mem_shared_bytes: 0, _pad: [0; 5] }).encode()
    } else if topic == info_topic::VMAR {
        (VmarInfo { base: 0, len: 0 }).encode()
    } else if topic == info_topic::KMEM_STATS {
        (KmemStats { total_bytes: 0, free_bytes: 0, wired_bytes: 0, total_heap_bytes: 0, free_heap_bytes: 0, vmo_bytes: 0, mmu_overhead_bytes: 0, ipc_bytes: 0, other_bytes: 0 }).encode()
    } else if topic == info_topic::HANDLE_COUNT {
        (HandleCountInfo { handle_count: 0 }).encode()
    } else if topic == info_topic::PROCESS_HANDLE_STATS {
        (ProcessHandleStats { handle_count: [0; 64] }).encode()
    } else if topic == info_topic::SOCKET {
        (SocketInfo { options: 0, _pad1: [0; 3], rx_buf_size: 0, rx_buf_available: 0, tx_buf_size: 0, tx_buf_available: 0, _pad2: [0; 7] }).encode()
    } else {
        return err_to_ret(RX_ERR_NOT_SUPPORTED);
    };
    match single_record_result(mem, buffer, buffer_size, actual_out, avail_out, record.as_slice()) {
        Ok(()) => ok_to_ret(0),
        Err(err) => err_to_ret(err),
    }
}

/// Length of an object name, terminator included.
pub const MAX_NAME_LEN: usize = 32;

/// Size of a readable property's value: the name is `MAX_NAME_LEN` bytes,
/// the debug address, vDSO base and socket thresholds 8 bytes; other
/// properties cannot be read.
pub open spec fn readable_property_size(property: u32) -> Option<nat> {
    if property == property::NAME {
        Some(MAX_NAME_LEN as nat)
    } else if property == property::PROCESS_DEBUG_ADDR || property == property::PROCESS_VDSO_BASE_ADDRESS
        || property == property::SOCKET_RX_THRESHOLD || property == property::SOCKET_TX_THRESHOLD {
        Some(8)
    } else {
        None
    }
}

/// `n` zero bytes.
pub open spec fn zeros(n: nat) -> Seq<u8> {
    Seq::new(n, |i: int| 0u8)
}

/// Read property `property` of handle `handle_val` into `size` bytes of
/// user memory at `value`: every readable property reads as zeros (see
/// `readable_property_size`); a null `value` or an unreadable property is
/// refused, a `size` below the property's size is `RX_ERR_BUFFER_TOO_SMALL`.
pub fn sys_object_get_property_impl(mem: &mut UserMemory, handle_val: u32, property: u32, value: usize, size: usize) -> (r: SyscallRet)
    ensures
        final(mem).base == old(mem).base,
        value == 0 ==> r == -RX_ERR_INVALID_ARGS && *final(mem) == *old(mem),
        value != 0 ==> match readable_property_size(property) {
            None => r == -RX_ERR_INVALID_ARGS && *final(mem) == *old(mem),
            Some(n) => if size < n {
                r == -RX_ERR_BUFFER_TOO_SMALL && *final(mem) == *old(mem)
            } else if !old(mem).range_ok(value, n as usize) {
                r == -RX_ERR_INVALID_ARGS && *final(mem) == *old(mem)
            } else {
                r == 0 && final(mem).bytes@ == old(mem).written(value, zeros(n))
            },
        },
{
    if value == 0 {
        return err_to_ret(RX_ERR_INVALID_ARGS);
    }
    let n: usize = if property == property::NAME {
        MAX_NAME_LEN
    } else if property == property::PROCESS_DEBUG_ADDR || property == property::PROCESS_VDSO_BASE_ADDRESS
        || property == property::SOCKET_RX_THRESHOLD || property == property::SOCKET_TX_THRESHOLD {
        8
    } else {
        return err_to_ret(RX_ERR_INVALID_ARGS);
    };
    if size < n {
        return err_to_ret(RX_ERR_BUFFER_TOO_SMALL);
    }
    let mut buf: Vec<u8> = Vec::new();
    let mut i: usize = 0;
    while i < n
        invariant
            i <= n,
            n <= MAX_NAME_LEN,
            buf@ == zeros(i as nat),
        decreases n - i,
    {
        buf.push(0);
        i = i + 1;
        proof {
            assert(buf@ =~= zeros(i as nat));
        }
    }
    match mem.copy_to_user(value, buf.as_slice()) {
        Ok(()) => ok_to_ret(0),
        Err(err) => err_to_ret(err),
    }
}

/// Result of writing property `property` from `size` bytes of `m` at
/// `value`: the name takes up to `MAX_NAME_LEN - 1` bytes; the debug address
/// and socket thresholds take 8 bytes; kill-on-OOM takes 8 bytes holding 0
/// or 1; other properties cannot be written.
pub open spec fn set_property_result(m: UserMemory, property: u32, value: usize, size: usize) -> SyscallRet {
    if value == 0 {
        -RX_ERR_INVALID_ARGS as isize
    } else if property == property::NAME {
        let copy_size = if size >= MAX_NAME_LEN { (MAX_NAME_LEN - 1) as usize } else { size };
        if m.range_ok(value, copy_size) { 0 } else { -RX_ERR_INVALID_ARGS as isize }
    } else if property == property::PROCESS_DEBUG_ADDR || property == property::SOCKET_RX_THRESHOLD
        || property == property::SOCKET_TX_THRESHOLD || property == property::JOB_KILL_ON_OOM {
        if size < 8 {
            -RX_ERR_BUFFER_TOO_SMALL as isize
        } else if !m.range_ok(value, 8) {
            -RX_ERR_INVALID_ARGS as isize
        } else if property == property::JOB_KILL_ON_OOM && le_value(m.bytes_at(value, 8), 8) > 1 {
            -RX_ERR_INVALID_ARGS as isize
        } else {
            0
        }
    } else {
        -RX_ERR_INVALID_ARGS as isize
    }
}

/// Write property `property` of handle `handle_val` from `size` bytes of
/// user memory at `value` (see `set_property_result`); the values are
/// checked but not kept.
pub fn sys_object_set_property_impl(mem: &UserMemory, handle_val: u32, property: u32, value: usize, size: usize) -> (r: SyscallRet)
    ensures
        r == set_property_result(*mem, property, value, size),
{
    if value == 0 {
        return err_to_ret(RX_ERR_INVALID_ARGS);
    }
    if property == property::NAME {
        let copy_size = if size >= MAX_NAME_LEN { MAX_NAME_LEN - 1 } else { size };
        match mem.copy_from_user(value, copy_size) {
            Ok(_name) => ok_to_ret(0),
            Err(err) => err_to_ret(err),
        }
    } else if property == property::PROCESS_DEBUG_ADDR || property == property::SOCKET_RX_THRESHOLD
        || property == property::SOCKET_TX_THRESHOLD || property == property::JOB_KILL_ON_OOM {
        if size < 8 {
            return err_to_ret(RX_ERR_BUFFER_TOO_SMALL);
        }
        let v = match mem.read_le(value, 8) {
            Ok(v) => v,
            Err(err) => {
                return err_to_ret(err);
            },
        };
        if property == property::JOB_KILL_ON_OOM && v > 1 {
            return err_to_ret(RX_ERR_INVALID_ARGS);
        }
        ok_to_ret(0)
    } else {
        err_to_ret(RX_ERR_INVALID_ARGS)
    }
}

/// Clear and set user signals on an object: accepted and not acted on.
pub fn sys_object_signal_impl(handle_val: u32, clear_mask: u32, set_mask: u32) -> (r: SyscallRet)
    ensures
        r == 0,
{
    ok_to_ret(0)
}

/// Clear and set user signals on an object's peer: accepted and not acted
/// on.
pub fn sys_object_signal_peer_impl(handle_val: u32, clear_mask: u32, set_mask: u32) -> (r: SyscallRet)
    ensures
        r == 0,
{
    ok_to_ret(0)
}

/// A handle to the child object `koid`: its value is the low 32 bits of
/// the koid.
pub fn sys_object_get_child_impl(handle_val: u32, koid: u64, rights: u32) -> (r: SyscallRet)
    ensures
        r == ((koid & 0xFFFF_FFFF) as usize) as isize,
{
    ok_to_ret(#[verifier::truncate] ((koid & 0xFFFF_FFFF) as usize))
}

/// Attach a cookie to an object: accepted and not kept.
pub fn sys_object_set_cookie_impl(handle_val: u32, scope_handle: u32, cookie: u64) -> (r: SyscallRet)
    ensures
        r == 0,
{
    ok_to_ret(0)
}

/// The cookie of an object, stored as 8 bytes at `cookie_out` (always 0,
/// since cookies are not kept); a null `cookie_out` is refused.
pub fn sys_object_get_cookie_impl(mem: &mut UserMemory, handle_val: u32, scope_handle: u32, cookie_out: usize) -> (r: SyscallRet)
    ensures
        final(mem).base == old(mem).base,
        cookie_out == 0 ==> r == -RX_ERR_INVALID_ARGS && *final(mem) == *old(mem),
        cookie_out != 0 && !old(mem).range_ok(cookie_out, 8) ==> r == -RX_ERR_INVALID_ARGS && *final(mem) == *old(mem),
        cookie_out != 0 && old(mem).range_ok(cookie_out, 8) ==> r == 0 && final(mem).bytes@ == old(mem).written(cookie_out, le_bytes(0, 8)),
{
    if cookie_out == 0 {
        return err_to_ret(RX_ERR_INVALID_ARGS);
    }
    let cookie: u64 = 0;
    match mem.write_le(cookie_out, cookie, 8) {
        Ok(()) => ok_to_ret(0),
        Err(err) => err_to_ret(err),
    }
}

/// Object syscall statistics.
#[derive(Clone, Copy, Debug)]
pub struct ObjectStats {
    pub total_info_calls: u64,
    pub total_property_ops: u64,
    pub total_signals: u64,
}

/// Current object syscall statistics (none are tracked).
pub fn get_stats() -> (st: ObjectStats)
    ensures
        st.total_info_calls == 0,
        st.total_property_ops == 0,
        st.total_signals == 0,
{
    ObjectStats { total_info_calls: 0, total_property_ops: 0, total_signals: 0 }
}

/// Initialize the object syscall subsystem (nothing to set up).
pub fn init() {
}

/// Whether the `n` bytes at `a` and the `k` bytes at `b` do not overlap.
pub open spec fn apart(a: usize, n: nat, b: usize, k: nat) -> bool {
    a + n <= b || b + k <= a
}

/// Writing `data` at `addr` leaves the `k` bytes at `b` as they were when
/// the two ranges do not overlap.
proof fn lemma_write_keeps_apart(mem: Seq<u8>, base: usize, addr: usize, data: Seq<u8>, b: usize, k: nat)
    requires
        base <= addr,
        addr - base + data.len() <= mem.len(),
        base <= b,
        b - base + k <= mem.len(),
        apart(addr, data.len(), b, k),
    ensures
        write_seq(mem, base, addr, data).subrange(b - base, b - base + k) == mem.subrange(b - base, b - base + k),
{
    crate::usercopy::lemma_write_then_read_user(mem, base, addr, data);
    assert(write_seq(mem, base, addr, data).subrange(b - base, b - base + k) =~= mem.subrange(b - base, b - base + k));
}

/// Law: a single-record answer reads back.  When the record buffer and the
/// two count cells are valid and do not overlap, the record fits exactly
/// when `buffer_size` holds it; then the buffer holds the record, the
/// count of records copied reads 1 (else 0, with `RX_ERR_BUFFER_TOO_SMALL`),
/// and the count available reads 1.
pub proof fn lemma_single_record_reads_back(
    m: UserMemory,
    buffer: usize,
    buffer_size: usize,
    actual_out: usize,
    avail_out: usize,
    rec: Seq<u8>,
)
    requires
        rec.len() > 0,
        actual_out != 0,
        avail_out != 0,
        m.range_ok(actual_out, 8),
        m.range_ok(avail_out, 8),
        buffer_size >= rec.len() ==> m.range_ok(buffer, rec.len() as usize),
        apart(actual_out, 8, avail_out, 8),
        buffer_size >= rec.len() ==> apart(buffer, rec.len(), actual_out, 8) && apart(buffer, rec.len(), avail_out, 8),
    ensures
        ({
            let (res, b) = single_record_outcome(m, buffer, buffer_size, actual_out, avail_out, rec);
            &&& res == if buffer_size >= rec.len() { Ok::<(), Status>(()) } else { Err::<(), Status>(RX_ERR_BUFFER_TOO_SMALL) }
            &&& b.subrange(actual_out - m.base, actual_out - m.base + 8) == le_bytes(if buffer_size >= rec.len() { 1 } else { 0 }, 8)
            &&& b.subrange(avail_out - m.base, avail_out - m.base + 8) == le_bytes(1, 8)
            &&& buffer_size >= rec.len() ==> b.subrange(buffer - m.base, buffer - m.base + rec.len()) == rec
        }),
{
    let fits = buffer_size >= rec.len();
    let m0 = m.bytes@;
    let m1 = if fits { m.written(buffer, rec) } else { m0 };
    if fits {
        crate::usercopy::lemma_write_then_read_user(m0, m.base, buffer, rec);
    }
    let a = le_bytes(if fits { 1 } else { 0 }, 8);
    let m2 = write_seq(m1, m.base, actual_out, a);
    crate::usercopy::lemma_write_then_read_user(m1, m.base, actual_out, a);
    if fits {
        lemma_write_keeps_apart(m1, m.base, actual_out, a, buffer, rec.len());
    }
    let v = le_bytes(1, 8);
    let m3 = write_seq(m2, m.base, avail_out, v);
    crate::usercopy::lemma_write_then_read_user(m2, m.base, avail_out, v);
    lemma_write_keeps_apart(m2, m.base, avail_out, v, actual_out, 8);
    if fits {
        lemma_write_keeps_apart(m2, m.base, avail_out, v, buffer, rec.len());
    }
}

} // verus!

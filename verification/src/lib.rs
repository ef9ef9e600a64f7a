//! System call layer of the Rustux kernel: argument validation, object
//! registries and the state machines behind each syscall.
use vstd::prelude::*;

pub mod status;
pub mod registry;
pub mod kobject;
pub mod usercopy;
pub mod vmar;
pub mod timer;
pub mod object_wait;
pub mod event;
pub mod vmo;
pub mod channel;
pub mod fifo;
pub mod socket;
pub mod port;
pub mod handle_ops;
pub mod futex;
pub mod object;
pub mod task;
pub mod rustux;
pub mod system;
pub mod system_arm64;
pub mod system_x86;
pub mod system_riscv64;
pub mod profile;
pub mod resource;
pub mod pager;
pub mod exceptions;
pub mod exception;
pub mod ddk_arm64;
pub mod ddk_x86;
pub mod test;
pub mod wrapper;
pub mod debug;
pub mod ddk_pci;
pub mod ddk;
pub mod hypervisor;
pub mod aspace;
pub mod dispatch;

pub use dispatch::{Kernel, syscall_dispatch, arm64_syscall_entry, amd64_syscall_entry, riscv_syscall_entry};

verus! {

/// Value returned to user space by a system call: zero or positive on
/// success, the negated status code on failure.
pub type SyscallRet = isize;

/// Convert an error code to the negative return value.
pub fn err_to_ret(err: status::Status) -> (r: SyscallRet)
    requires
        err != i32::MIN,
    ensures
        r == -(err as int),
{
    -(err as isize)
}

/// Convert a success value to a return value.
pub fn ok_to_ret(val: usize) -> (r: SyscallRet)
    ensures
        r == val as isize,
{
    val as isize
}

/// A system call number.
#[derive(Clone, Copy, Debug, PartialEq, Eq, Structural)]
#[allow(non_camel_case_types)]
pub enum SyscallNumber {
    rx_process_create,
    rx_process_start,
    rx_thread_create,
    rx_thread_start,
    rx_thread_exit,
    rx_process_exit,
    rx_handle_close,
    rx_vmo_create,
    rx_vmo_read,
    rx_vmo_write,
    rx_vmo_clone,
    rx_vmar_map,
    rx_vmar_unmap,
    rx_vmar_protect,
    rx_channel_create,
    rx_channel_write,
    rx_channel_read,
    rx_event_create,
    rx_eventpair_create,
    rx_object_signal,
    rx_object_wait_one,
    rx_object_wait_many,
    rx_job_create,
    rx_handle_duplicate,
    rx_handle_transfer,
    rx_clock_get,
    rx_timer_create,
    rx_timer_set,
    rx_timer_cancel,
    Unknown,
}

/// The number of each system call.
pub open spec fn syscall_raw(s: SyscallNumber) -> u32 {
    match s {
        SyscallNumber::rx_process_create => 0x1,
        SyscallNumber::rx_process_start => 0x2,
        SyscallNumber::rx_thread_create => 0x3,
        SyscallNumber::rx_thread_start => 0x4,
        SyscallNumber::rx_thread_exit => 0x5,
        SyscallNumber::rx_process_exit => 0x6,
        SyscallNumber::rx_handle_close => 0x7,
        SyscallNumber::rx_vmo_create => 0x10,
        SyscallNumber::rx_vmo_read => 0x11,
        SyscallNumber::rx_vmo_write => 0x12,
        SyscallNumber::rx_vmo_clone => 0x13,
        SyscallNumber::rx_vmar_map => 0x14,
        SyscallNumber::rx_vmar_unmap => 0x15,
        SyscallNumber::rx_vmar_protect => 0x16,
        SyscallNumber::rx_channel_create => 0x20,
        SyscallNumber::rx_channel_write => 0x21,
        SyscallNumber::rx_channel_read => 0x22,
        SyscallNumber::rx_event_create => 0x23,
        SyscallNumber::rx_eventpair_create => 0x24,
        SyscallNumber::rx_object_signal => 0x25,
        SyscallNumber::rx_object_wait_one => 0x26,
        SyscallNumber::rx_object_wait_many => 0x27,
        SyscallNumber::rx_job_create => 0x30,
        SyscallNumber::rx_handle_duplicate => 0x31,
        SyscallNumber::rx_handle_transfer => 0x32,
        SyscallNumber::rx_clock_get => 0x40,
        SyscallNumber::rx_timer_create => 0x41,
        SyscallNumber::rx_timer_set => 0x42,
        SyscallNumber::rx_timer_cancel => 0x43,
        SyscallNumber::Unknown => 0xFFFF,
    }
}

/// The system call with number `n` (`Unknown` when none has it).
pub open spec fn syscall_from_raw(n: u32) -> SyscallNumber {
    if n == 0x1 {
        SyscallNumber::rx_process_create
    } else if n == 0x2 {
        SyscallNumber::rx_process_start
    } else if n == 0x3 {
        SyscallNumber::rx_thread_create
    } else if n == 0x4 {
        SyscallNumber::rx_thread_start
    } else if n == 0x5 {
        SyscallNumber::rx_thread_exit
    } else if n == 0x6 {
        SyscallNumber::rx_process_exit
    } else if n == 0x7 {
        SyscallNumber::rx_handle_close
    } else if n == 0x10 {
        SyscallNumber::rx_vmo_create
    } else if n == 0x11 {
        SyscallNumber::rx_vmo_read
    } else if n == 0x12 {
        SyscallNumber::rx_vmo_write
    } else if n == 0x13 {
        SyscallNumber::rx_vmo_clone
    } else if n == 0x14 {
        SyscallNumber::rx_vmar_map
    } else if n == 0x15 {
        SyscallNumber::rx_vmar_unmap
    } else if n == 0x16 {
        SyscallNumber::rx_vmar_protect
    } else if n == 0x20 {
        SyscallNumber::rx_channel_create
    } else if n == 0x21 {
        SyscallNumber::rx_channel_write
    } else if n == 0x22 {
        SyscallNumber::rx_channel_read
    } else if n == 0x23 {
        SyscallNumber::rx_event_create
    } else if n == 0x24 {
        SyscallNumber::rx_eventpair_create
    } else if n == 0x25 {
        SyscallNumber::rx_object_signal
    } else if n == 0x26 {
        SyscallNumber::rx_object_wait_one
    } else if n == 0x27 {
        SyscallNumber::rx_object_wait_many
    } else if n == 0x30 {
        SyscallNumber::rx_job_create
    } else if n == 0x31 {
        SyscallNumber::rx_handle_duplicate
    } else if n == 0x32 {
        SyscallNumber::rx_handle_transfer
    } else if n == 0x40 {
        SyscallNumber::rx_clock_get
    } else if n == 0x41 {
        SyscallNumber::rx_timer_create
    } else if n == 0x42 {
        SyscallNumber::rx_timer_set
    } else if n == 0x43 {
        SyscallNumber::rx_timer_cancel
    } else {
        SyscallNumber::Unknown
    }
}

/// Law: the number of a known system call names it again.
pub proof fn lemma_syscall_number_roundtrip(s: SyscallNumber)
    ensures
        s != SyscallNumber::Unknown ==> syscall_from_raw(syscall_raw(s)) == s,
{
}

/// Law: a number that names a system call is that call's number.
pub proof fn lemma_syscall_raw_of_known(n: u32)
    ensures
        syscall_from_raw(n) != SyscallNumber::Unknown ==> syscall_raw(syscall_from_raw(n)) == n,
{
}

impl SyscallNumber {
    /// The system call with number `n`; any number that names none is
    /// `Unknown`.
    pub fn from_raw(n: u32) -> (s: SyscallNumber)
        ensures
            s == syscall_from_raw(n),
    {
        match n {
            0x1 => SyscallNumber::rx_process_create,
            0x2 => SyscallNumber::rx_process_start,
            0x3 => SyscallNumber::rx_thread_create,
            0x4 => SyscallNumber::rx_thread_start,
            0x5 => SyscallNumber::rx_thread_exit,
            0x6 => SyscallNumber::rx_process_exit,
            0x7 => SyscallNumber::rx_handle_close,
            0x10 => SyscallNumber::rx_vmo_create,
            0x11 => SyscallNumber::rx_vmo_read,
            0x12 => SyscallNumber::rx_vmo_write,
            0x13 => SyscallNumber::rx_vmo_clone,
            0x14 => SyscallNumber::rx_vmar_map,
            0x15 => SyscallNumber::rx_vmar_unmap,
            0x16 => SyscallNumber::rx_vmar_protect,
            0x20 => SyscallNumber::rx_channel_create,
            0x21 => SyscallNumber::rx_channel_write,
            0x22 => SyscallNumber::rx_channel_read,
            0x23 => SyscallNumber::rx_event_create,
            0x24 => SyscallNumber::rx_eventpair_create,
            0x25 => SyscallNumber::rx_object_signal,
            0x26 => SyscallNumber::rx_object_wait_one,
            0x27 => SyscallNumber::rx_object_wait_many,
            0x30 => SyscallNumber::rx_job_create,
            0x31 => SyscallNumber::rx_handle_duplicate,
            0x32 => SyscallNumber::rx_handle_transfer,
            0x40 => SyscallNumber::rx_clock_get,
            0x41 => SyscallNumber::rx_timer_create,
            0x42 => SyscallNumber::rx_timer_set,
            0x43 => SyscallNumber::rx_timer_cancel,
            _ => SyscallNumber::Unknown,
        }
    }

    /// The number of this system call (`0xFFFF` for `Unknown`).
    pub fn into_raw(self) -> (n: u32)
        ensures
            n == syscall_raw(self),
    {
        match self {
            SyscallNumber::rx_process_create => 0x1,
            SyscallNumber::rx_process_start => 0x2,
            SyscallNumber::rx_thread_create => 0x3,
            SyscallNumber::rx_thread_start => 0x4,
            SyscallNumber::rx_thread_exit => 0x5,
            SyscallNumber::rx_process_exit => 0x6,
            SyscallNumber::rx_handle_close => 0x7,
            SyscallNumber::rx_vmo_create => 0x10,
            SyscallNumber::rx_vmo_read => 0x11,
            SyscallNumber::rx_vmo_write => 0x12,
            SyscallNumber::rx_vmo_clone => 0x13,
            SyscallNumber::rx_vmar_map => 0x14,
            SyscallNumber::rx_vmar_unmap => 0x15,
            SyscallNumber::rx_vmar_protect => 0x16,
            SyscallNumber::rx_channel_create => 0x20,
            SyscallNumber::rx_channel_write => 0x21,
            SyscallNumber::rx_channel_read => 0x22,
            SyscallNumber::rx_event_create => 0x23,
            SyscallNumber::rx_eventpair_create => 0x24,
            SyscallNumber::rx_object_signal => 0x25,
            SyscallNumber::rx_object_wait_one => 0x26,
            SyscallNumber::rx_object_wait_many => 0x27,
            SyscallNumber::rx_job_create => 0x30,
            SyscallNumber::rx_handle_duplicate => 0x31,
            SyscallNumber::rx_handle_transfer => 0x32,
            SyscallNumber::rx_clock_get => 0x40,
            SyscallNumber::rx_timer_create => 0x41,
            SyscallNumber::rx_timer_set => 0x42,
            SyscallNumber::rx_timer_cancel => 0x43,
            SyscallNumber::Unknown => 0xFFFF,
        }
    }

    /// The name of this system call.
    pub fn name(&self) -> (s: &'static str)
        ensures
            s@ == match *self {
                SyscallNumber::rx_process_create => "rx_process_create"@,
                SyscallNumber::rx_process_start => "rx_process_start"@,
                SyscallNumber::rx_thread_create => "rx_thread_create"@,
                SyscallNumber::rx_thread_start => "rx_thread_start"@,
                SyscallNumber::rx_thread_exit => "rx_thread_exit"@,
                SyscallNumber::rx_process_exit => "rx_process_exit"@,
                SyscallNumber::rx_handle_close => "rx_handle_close"@,
                SyscallNumber::rx_vmo_create => "rx_vmo_create"@,
                SyscallNumber::rx_vmo_read => "rx_vmo_read"@,
                SyscallNumber::rx_vmo_write => "rx_vmo_write"@,
                SyscallNumber::rx_vmo_clone => "rx_vmo_clone"@,
                SyscallNumber::rx_vmar_map => "rx_vmar_map"@,
                SyscallNumber::rx_vmar_unmap => "rx_vmar_unmap"@,
                SyscallNumber::rx_vmar_protect => "rx_vmar_protect"@,
                SyscallNumber::rx_channel_create => "rx_channel_create"@,
                SyscallNumber::rx_channel_write => "rx_channel_write"@,
                SyscallNumber::rx_channel_read => "rx_channel_read"@,
                SyscallNumber::rx_event_create => "rx_event_create"@,
                SyscallNumber::rx_eventpair_create => "rx_eventpair_create"@,
                SyscallNumber::rx_object_signal => "rx_object_signal"@,
                SyscallNumber::rx_object_wait_one => "rx_object_wait_one"@,
                SyscallNumber::rx_object_wait_many => "rx_object_wait_many"@,
                SyscallNumber::rx_job_create => "rx_job_create"@,
                SyscallNumber::rx_handle_duplicate => "rx_handle_duplicate"@,
                SyscallNumber::rx_handle_transfer => "rx_handle_transfer"@,
                SyscallNumber::rx_clock_get => "rx_clock_get"@,
                SyscallNumber::rx_timer_create => "rx_timer_create"@,
                SyscallNumber::rx_timer_set => "rx_timer_set"@,
                SyscallNumber::rx_timer_cancel => "rx_timer_cancel"@,
                SyscallNumber::Unknown => "unknown"@,
            },
    {
        match self {
            SyscallNumber::rx_process_create => "rx_process_create",
            SyscallNumber::rx_process_start => "rx_process_start",
            SyscallNumber::rx_thread_create => "rx_thread_create",
            SyscallNumber::rx_thread_start => "rx_thread_start",
            SyscallNumber::rx_thread_exit => "rx_thread_exit",
            SyscallNumber::rx_process_exit => "rx_process_exit",
            SyscallNumber::rx_handle_close => "rx_handle_close",
            SyscallNumber::rx_vmo_create => "rx_vmo_create",
            SyscallNumber::rx_vmo_read => "rx_vmo_read",
            SyscallNumber::rx_vmo_write => "rx_vmo_write",
            SyscallNumber::rx_vmo_clone => "rx_vmo_clone",
            SyscallNumber::rx_vmar_map => "rx_vmar_map",
            SyscallNumber::rx_vmar_unmap => "rx_vmar_unmap",
            SyscallNumber::rx_vmar_protect => "rx_vmar_protect",
            SyscallNumber::rx_channel_create => "rx_channel_create",
            SyscallNumber::rx_channel_write => "rx_channel_write",
            SyscallNumber::rx_channel_read => "rx_channel_read",
            SyscallNumber::rx_event_create => "rx_event_create",
            SyscallNumber::rx_eventpair_create => "rx_eventpair_create",
            SyscallNumber::rx_object_signal => "rx_object_signal",
            SyscallNumber::rx_object_wait_one => "rx_object_wait_one",
            SyscallNumber::rx_object_wait_many => "rx_object_wait_many",
            SyscallNumber::rx_job_create => "rx_job_create",
            SyscallNumber::rx_handle_duplicate => "rx_handle_duplicate",
            SyscallNumber::rx_handle_transfer => "rx_handle_transfer",
            SyscallNumber::rx_clock_get => "rx_clock_get",
            SyscallNumber::rx_timer_create => "rx_timer_create",
            SyscallNumber::rx_timer_set => "rx_timer_set",
            SyscallNumber::rx_timer_cancel => "rx_timer_cancel",
            SyscallNumber::Unknown => "unknown",
        }
    }
}

/// The arguments of a system call: its number and six machine words.
#[derive(Clone, Copy, Debug)]
pub struct SyscallArgs {
    pub number: u32,
    pub args: [usize; 6],
}

impl SyscallArgs {
    pub fn new(number: u32, args: [usize; 6]) -> (a: SyscallArgs)
        ensures
            a.number == number,
            a.args == args,
    {
        SyscallArgs { number, args }
    }

    /// Argument `index`, or 0 past the sixth.
    pub fn arg(&self, index: usize) -> (v: usize)
        ensures
            v == if index < 6 { self.args@[index as int] } else { 0 },
    {
        if index < 6 {
            self.args[index]
        } else {
            0
        }
    }
}

/// System call counts: in total and by number (numbers below 256).
#[derive(Clone, Copy, Debug)]
pub struct SyscallStats {
    pub total_calls: u64,
    pub by_number: [u64; 256],
}

impl SyscallStats {
    /// No call counted.
    pub fn new() -> (s: SyscallStats)
        ensures
            s.total_calls == 0,
            forall|i: int| 0 <= i < 256 ==> s.by_number@[i] == 0,
    {
        SyscallStats { total_calls: 0, by_number: [0; 256] }
    }

    /// Count a call of system call `num`; the counters wrap.
    pub fn record(&mut self, num: u32)
        ensures
            final(self).total_calls == old(self).total_calls.wrapping_add(1),
            num < 256 ==> final(self).by_number@ == old(self).by_number@.update(num as int, old(self).by_number@[num as int].wrapping_add(1)),
            num >= 256 ==> final(self).by_number@ == old(self).by_number@,
    {
        self.total_calls = self.total_calls.wrapping_add(1);
        if num < 256 {
            let i = num as usize;
            let c = self.by_number[i];
            self.by_number[i] = c.wrapping_add(1);
        }
    }
}

/// The system call counts kept in `stats`.
pub fn get_syscall_stats(stats: &SyscallStats) -> (s: SyscallStats)
    ensures
        s == *stats,
{
    *stats
}

/// Initialize the system call layer (nothing to set up).
pub fn init() {
}

} // verus!

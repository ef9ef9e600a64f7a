//! The system call entry: the kernel state the syscalls work on, the
//! handler that unpacks each call's arguments, and the dispatcher.
use vstd::prelude::*;
use crate::status::{RX_ERR_INVALID_ARGS, RX_ERR_NOT_SUPPORTED, RX_ERR_OUT_OF_RANGE};
use crate::usercopy::UserMemory;
use crate::kobject::HandleTable;
use crate::task::{self, TaskSubsystem};
use crate::vmo::{self, VmoSubsystem};
use crate::vmar::{self, VmarSpace, vmar_for_handle, vmar_options, free_search_fits, PAGE_SIZE};
use crate::channel::{self, ChannelSubsystem};
use crate::event::{self, EventSubsystem};
use crate::object_wait::{self, WaitQueueRegistry};
use crate::handle_ops;
use crate::timer::{self, TimerSubsystem};
use crate::{SyscallArgs, SyscallNumber, SyscallRet, err_to_ret, ok_to_ret, syscall_from_raw};

verus! {

/// The state the dispatched system calls act on: the calling process's
/// memory and handles, the kernel's object subsystems, and the calling
/// thread.
pub struct Kernel {
    pub mem: UserMemory,
    pub handles: HandleTable,
    pub tasks: TaskSubsystem,
    pub vmos: VmoSubsystem,
    pub vmars: VmarSpace,
    pub channels: ChannelSubsystem,
    pub events: EventSubsystem,
    pub waits: WaitQueueRegistry,
    pub timers: TimerSubsystem,
    pub current_thread: usize,
}

impl Kernel {
    /// The invariants every subsystem keeps.
    pub open spec fn wf(&self) -> bool {
        &&& self.handles.wf()
        &&& self.tasks.threads.wf()
        &&& self.vmos.registry.wf()
        &&& self.vmos.registry.entries_wf()
        &&& self.vmars.wf()
        &&& self.channels.registry.wf()
        &&& self.events.events.wf()
        &&& self.events.pairs.wf()
        &&& self.waits.wf()
        &&& self.timers.registry.wf()
    }

    /// A kernel with no objects, running thread `current_thread` of a
    /// process whose memory is `mem`.
    pub fn new(mem: UserMemory, current_thread: usize) -> (k: Kernel)
        ensures
            k.wf(),
            k.mem == mem,
            k.current_thread == current_thread,
    {
        let k = Kernel {
            mem,
            handles: HandleTable::new(),
            tasks: TaskSubsystem::new(),
            vmos: VmoSubsystem::new(),
            vmars: VmarSpace::new(),
            channels: ChannelSubsystem::new(),
            events: EventSubsystem::new(),
            waits: WaitQueueRegistry::new(),
            timers: TimerSubsystem::new(),
            current_thread,
        };
        k
    }
}

/// `k2` differs from `k` at most in the parts flagged.
pub open spec fn changes_only(
    k: Kernel,
    k2: Kernel,
    mem: bool,
    handles: bool,
    tasks: bool,
    vmos: bool,
    vmars: bool,
    channels: bool,
    events: bool,
    waits: bool,
    timers: bool,
) -> bool {
    &&& !mem ==> k2.mem == k.mem
    &&& !handles ==> k2.handles == k.handles
    &&& !tasks ==> k2.tasks == k.tasks
    &&& !vmos ==> k2.vmos == k.vmos
    &&& !vmars ==> k2.vmars == k.vmars
    &&& !channels ==> k2.channels == k.channels
    &&& !events ==> k2.events == k.events
    &&& !waits ==> k2.waits == k.waits
    &&& !timers ==> k2.timers == k.timers
    &&& k2.current_thread == k.current_thread
    &&& k2.mem.base == k.mem.base
}

/// The parts of the kernel system call `s` may change.
pub open spec fn syscall_frame(k: Kernel, k2: Kernel, s: SyscallNumber) -> bool {
    match s {
        SyscallNumber::rx_process_create => changes_only(k, k2, false, false, true, false, false, false, false, false, false),
        SyscallNumber::rx_process_start => changes_only(k, k2, false, false, true, false, false, false, false, false, false),
        SyscallNumber::rx_thread_create => changes_only(k, k2, false, false, true, false, false, false, false, false, false),
        SyscallNumber::rx_thread_start => changes_only(k, k2, false, false, true, false, false, false, false, false, false),
        SyscallNumber::rx_vmo_create => changes_only(k, k2, false, true, false, true, false, false, false, false, false),
        SyscallNumber::rx_vmo_read => changes_only(k, k2, true, false, false, false, false, false, false, false, false),
        SyscallNumber::rx_vmo_write => changes_only(k, k2, false, false, false, true, false, false, false, false, false),
        SyscallNumber::rx_vmo_clone => changes_only(k, k2, false, true, false, true, false, false, false, false, false),
        SyscallNumber::rx_vmar_map => changes_only(k, k2, true, false, false, false, true, false, false, false, false),
        SyscallNumber::rx_vmar_unmap => changes_only(k, k2, false, false, false, false, true, false, false, false, false),
        SyscallNumber::rx_vmar_protect => changes_only(k, k2, false, false, false, false, true, false, false, false, false),
        SyscallNumber::rx_channel_create => changes_only(k, k2, false, true, false, false, false, true, false, false, false),
        SyscallNumber::rx_channel_write => changes_only(k, k2, false, true, false, false, false, true, false, false, false),
        SyscallNumber::rx_channel_read => changes_only(k, k2, true, false, false, false, false, true, false, false, false),
        SyscallNumber::rx_event_create => changes_only(k, k2, false, true, false, false, false, false, true, false, false),
        SyscallNumber::rx_eventpair_create => changes_only(k, k2, false, true, false, false, false, false, true, false, false),
        SyscallNumber::rx_object_signal => changes_only(k, k2, false, false, false, false, false, false, true, true, false),
        SyscallNumber::rx_object_wait_one => changes_only(k, k2, true, false, false, false, false, false, false, true, false),
        SyscallNumber::rx_object_wait_many => changes_only(k, k2, true, false, false, false, false, false, false, false, false),
        SyscallNumber::rx_job_create => changes_only(k, k2, false, false, true, false, false, false, false, false, false),
        SyscallNumber::rx_handle_duplicate => changes_only(k, k2, true, true, false, false, false, false, false, false, false),
        SyscallNumber::rx_handle_transfer => changes_only(k, k2, false, true, false, false, false, false, false, false, false),
        SyscallNumber::rx_timer_create => changes_only(k, k2, false, true, false, false, false, false, false, false, true),
        SyscallNumber::rx_timer_set => changes_only(k, k2, false, false, false, false, false, false, false, false, true),
        SyscallNumber::rx_timer_cancel => changes_only(k, k2, false, false, false, false, false, false, false, false, true),
        _ => k2 == k,
    }
}

/// Argument `i` of the argument registers `a` (0 past the sixth).
pub open spec fn arg_at(a: Seq<usize>, i: int) -> usize {
    if 0 <= i < 6 && i < a.len() { a[i] } else { 0 }
}

/// Argument `i` taken as 32 bits.
pub open spec fn arg32(a: Seq<usize>, i: int) -> u32 {
    arg_at(a, i) as u32
}

/// Argument `i` taken as 64 bits.
pub open spec fn arg64(a: Seq<usize>, i: int) -> u64 {
    arg_at(a, i) as u64
}

/// What system call `s` made with arguments `a` on `k` gives: its result `r` and
/// the kernel `k2` afterwards, as the handler of that call states it over
/// the unpacked arguments.
pub open spec fn call_outcome(
    s: SyscallNumber,
    k: Kernel,
    k2: Kernel,
    a: Seq<usize>,
    r: SyscallRet,
) -> bool {
    match s {
        SyscallNumber::rx_process_create => task::process_create_outcome(k.tasks, k2.tasks, k.mem, arg32(a, 0),
            arg_at(a, 1), arg_at(a, 2), arg32(a, 3), r),
        SyscallNumber::rx_process_start => task::process_start_outcome(k.tasks, k2.tasks, arg32(a, 0), arg32(a, 1),
            arg64(a, 2), arg64(a, 3), r),
        SyscallNumber::rx_thread_create => task::thread_create_outcome(k.tasks, k2.tasks, k.mem, arg32(a, 0),
            arg_at(a, 1), arg_at(a, 2), arg32(a, 3), r),
        SyscallNumber::rx_thread_start => task::thread_start_outcome(k.tasks, k2.tasks, arg32(a, 0), arg64(a, 1),
            arg64(a, 2), arg64(a, 3), arg64(a, 4), r),
        SyscallNumber::rx_thread_exit => r == 0 && k2 == k,
        SyscallNumber::rx_process_exit => r == 0 && k2 == k,
        SyscallNumber::rx_handle_close => r == 0 && k2 == k,
        SyscallNumber::rx_vmo_create => vmo::vmo_create_outcome(k.vmos, k2.vmos, k.handles, k2.handles, arg_at(a, 0),
            arg32(a, 1), r),
        SyscallNumber::rx_vmo_read => vmo::vmo_read_outcome(k.vmos, k.handles, k.mem, k2.mem, arg32(a, 0),
            arg_at(a, 1), arg_at(a, 2), arg_at(a, 3), r),
        SyscallNumber::rx_vmo_write => vmo::vmo_write_outcome(k.vmos, k2.vmos, k.handles, k.mem, arg32(a, 0),
            arg_at(a, 1), arg_at(a, 2), arg_at(a, 3), r),
        SyscallNumber::rx_vmo_clone => vmo::vmo_clone_outcome(k.vmos, k2.vmos, k.handles, k2.handles, arg32(a, 0),
            arg_at(a, 1), arg_at(a, 2), r),
        SyscallNumber::rx_vmar_map => if vmar_map_fits(k.vmars, arg32(a, 0), arg32(a, 1), arg64(a, 2), arg64(a, 4),
            arg64(a, 5)) {
            vmar::vmar_map_outcome(k.vmars, k2.vmars, k.vmos, k.handles, k.mem, k2.mem, arg32(a, 0), arg32(a, 1),
                arg64(a, 2), arg32(a, 3), arg64(a, 4), arg64(a, 5), arg_at(a, 6), r)
        } else {
            r == -RX_ERR_OUT_OF_RANGE && k2 == k
        },
        SyscallNumber::rx_vmar_unmap => if arg64(a, 1) + arg64(a, 2) <= u64::MAX {
            vmar::vmar_unmap_outcome(k.vmars, k2.vmars, arg32(a, 0), arg64(a, 1), arg64(a, 2), r)
        } else {
            r == -RX_ERR_OUT_OF_RANGE && k2 == k
        },
        SyscallNumber::rx_vmar_protect => vmar::vmar_protect_outcome(k.vmars, k2.vmars, arg32(a, 0), arg32(a, 1),
            arg64(a, 2), arg64(a, 3), r),
        SyscallNumber::rx_channel_create => channel::channel_create_outcome(k.channels, k2.channels, k.handles, k2.handles,
            arg32(a, 0), r),
        SyscallNumber::rx_channel_write => channel::channel_write_outcome(k.channels, k2.channels, k.handles, k2.handles, k.mem,
            arg32(a, 0), arg32(a, 1), arg_at(a, 2), arg_at(a, 3), arg_at(a, 4), arg_at(a, 5), r),
        SyscallNumber::rx_channel_read => channel::channel_read_outcome(k.channels, k2.channels, k.handles, k.mem, k2.mem,
            arg32(a, 0), arg32(a, 1), arg_at(a, 2), arg_at(a, 3), arg_at(a, 4), arg_at(a, 5), r),
        SyscallNumber::rx_event_create => event::event_create_outcome(k.events, k2.events, k.handles, k2.handles,
            arg32(a, 0), r),
        SyscallNumber::rx_eventpair_create => event::eventpair_create_outcome(k.events, k2.events, k.handles, k2.handles, r),
        SyscallNumber::rx_object_signal => event::object_signal_outcome(k.events, k2.events, k.handles, k.waits, k2.waits,
            arg32(a, 0), arg32(a, 1), r),
        SyscallNumber::rx_object_wait_one => object_wait::wait_one_outcome(k.waits, k2.waits, k.mem, k2.mem, k.current_thread,
            arg32(a, 0), arg64(a, 1), arg64(a, 2), arg_at(a, 3), r),
        SyscallNumber::rx_object_wait_many => object_wait::wait_many_outcome(k.mem, k2.mem, arg_at(a, 0),
            arg_at(a, 1), arg64(a, 2), r),
        SyscallNumber::rx_job_create => task::job_create_outcome(k.tasks, k2.tasks, arg32(a, 0), arg32(a, 1), r),
        SyscallNumber::rx_handle_duplicate => handle_ops::handle_duplicate_outcome(k.handles, k2.handles, k.mem, k2.mem,
            arg32(a, 0), arg32(a, 1), arg_at(a, 2), r),
        SyscallNumber::rx_handle_transfer => handle_ops::handle_transfer_outcome(k.handles, k2.handles, arg32(a, 0),
            arg32(a, 1), arg32(a, 2), r),
        SyscallNumber::rx_clock_get => k2 == k && r == if arg32(a, 0) == 0 { 0 } else { -RX_ERR_INVALID_ARGS as isize },
        SyscallNumber::rx_timer_create => timer::timer_create_outcome(k.timers, k2.timers, k.handles, k2.handles,
            arg32(a, 0), arg32(a, 1), r),
        SyscallNumber::rx_timer_set => timer::timer_set_outcome(k.timers, k2.timers, k.handles, arg32(a, 0),
            arg64(a, 1), arg_at(a, 2) as i64, r),
        SyscallNumber::rx_timer_cancel => timer::timer_cancel_outcome(k.timers, k2.timers, k.handles, arg32(a, 0), r),
        SyscallNumber::Unknown => r == -RX_ERR_NOT_SUPPORTED && k2 == k,
    }
}

fn sys_process_create(k: &mut Kernel, args: SyscallArgs) -> (r: SyscallRet)
    requires
        old(k).wf(),
    ensures
        final(k).wf(),
        syscall_frame(*old(k), *final(k), SyscallNumber::rx_process_create),
        call_outcome(SyscallNumber::rx_process_create, *old(k), *final(k), args.args@, r),
{
    let job = #[verifier::truncate] (args.arg(0) as u32);
    let name = args.arg(1);
    let name_len = args.arg(2);
    let options = #[verifier::truncate] (args.arg(3) as u32);
    task::sys_process_create_impl(&mut k.tasks, &k.mem, job, name, name_len, options)
}

fn sys_process_start(k: &mut Kernel, args: SyscallArgs) -> (r: SyscallRet)
    requires
        old(k).wf(),
    ensures
        final(k).wf(),
        syscall_frame(*old(k), *final(k), SyscallNumber::rx_process_start),
        call_outcome(SyscallNumber::rx_process_start, *old(k), *final(k), args.args@, r),
{
    let process = #[verifier::truncate] (args.arg(0) as u32);
    let thread = #[verifier::truncate] (args.arg(1) as u32);
    let entry = args.arg(2) as u64;
    let stack = args.arg(3) as u64;
    task::sys_process_start_impl(&mut k.tasks, process, thread, entry, stack)
}

fn sys_thread_create(k: &mut Kernel, args: SyscallArgs) -> (r: SyscallRet)
    requires
        old(k).wf(),
    ensures
        final(k).wf(),
        syscall_frame(*old(k), *final(k), SyscallNumber::rx_thread_create),
        call_outcome(SyscallNumber::rx_thread_create, *old(k), *final(k), args.args@, r),
{
    let process = #[verifier::truncate] (args.arg(0) as u32);
    let name = args.arg(1);
    let name_len = args.arg(2);
    let options = #[verifier::truncate] (args.arg(3) as u32);
    task::sys_thread_create_impl(&mut k.tasks, &k.mem, process, name, name_len, options)
}

fn sys_thread_start(k: &mut Kernel, args: SyscallArgs) -> (r: SyscallRet)
    requires
        old(k).wf(),
    ensures
        final(k).wf(),
        syscall_frame(*old(k), *final(k), SyscallNumber::rx_thread_start),
        call_outcome(SyscallNumber::rx_thread_start, *old(k), *final(k), args.args@, r),
{
    let handle = #[verifier::truncate] (args.arg(0) as u32);
    let entry = args.arg(1) as u64;
    let stack = args.arg(2) as u64;
    let arg1 = args.arg(3) as u64;
    let arg2 = args.arg(4) as u64;
    task::sys_thread_start_impl(&mut k.tasks, handle, entry, stack, arg1, arg2)
}

fn sys_vmo_create(k: &mut Kernel, args: SyscallArgs) -> (r: SyscallRet)
    requires
        old(k).wf(),
    ensures
        final(k).wf(),
        syscall_frame(*old(k), *final(k), SyscallNumber::rx_vmo_create),
        call_outcome(SyscallNumber::rx_vmo_create, *old(k), *final(k), args.args@, r),
{
    let size = args.arg(0);
    let options = #[verifier::truncate] (args.arg(1) as u32);
    vmo::sys_vmo_create_impl(&mut k.vmos, &mut k.handles, size, options)
}

fn sys_vmo_read(k: &mut Kernel, args: SyscallArgs) -> (r: SyscallRet)
    requires
        old(k).wf(),
    ensures
        final(k).wf(),
        syscall_frame(*old(k), *final(k), SyscallNumber::rx_vmo_read),
        call_outcome(SyscallNumber::rx_vmo_read, *old(k), *final(k), args.args@, r),
{
    let handle = #[verifier::truncate] (args.arg(0) as u32);
    let user_ptr = args.arg(1);
    let offset = args.arg(2);
    let len = args.arg(3);
    vmo::sys_vmo_read_impl(&k.vmos, &k.handles, &mut k.mem, handle, user_ptr, offset, len)
}

fn sys_vmo_write(k: &mut Kernel, args: SyscallArgs) -> (r: SyscallRet)
    requires
        old(k).wf(),
    ensures
        final(k).wf(),
        syscall_frame(*old(k), *final(k), SyscallNumber::rx_vmo_write),
        call_outcome(SyscallNumber::rx_vmo_write, *old(k), *final(k), args.args@, r),
{
    let handle = #[verifier::truncate] (args.arg(0) as u32);
    let user_ptr = args.arg(1);
    let offset = args.arg(2);
    let len = args.arg(3);
    vmo::sys_vmo_write_impl(&mut k.vmos, &k.handles, &k.mem, handle, user_ptr, offset, len)
}

fn sys_vmo_clone(k: &mut Kernel, args: SyscallArgs) -> (r: SyscallRet)
    requires
        old(k).wf(),
    ensures
        final(k).wf(),
        syscall_frame(*old(k), *final(k), SyscallNumber::rx_vmo_clone),
        call_outcome(SyscallNumber::rx_vmo_clone, *old(k), *final(k), args.args@, r),
{
    let handle = #[verifier::truncate] (args.arg(0) as u32);
    let offset = args.arg(1);
    let size = args.arg(2);
    vmo::sys_vmo_clone_impl(&mut k.vmos, &mut k.handles, handle, offset, size)
}

fn sys_vmar_unmap(k: &mut Kernel, args: SyscallArgs) -> (r: SyscallRet)
    requires
        old(k).wf(),
    ensures
        final(k).wf(),
        syscall_frame(*old(k), *final(k), SyscallNumber::rx_vmar_unmap),
        call_outcome(SyscallNumber::rx_vmar_unmap, *old(k), *final(k), args.args@, r),
{
    let vmar_handle = #[verifier::truncate] (args.arg(0) as u32);
    let addr = args.arg(1) as u64;
    let len = args.arg(2) as u64;
    if len > u64::MAX - addr {
        return err_to_ret(RX_ERR_OUT_OF_RANGE);
    }
    vmar::sys_vmar_unmap_impl(&mut k.vmars, vmar_handle, addr, len)
}

fn sys_vmar_protect(k: &mut Kernel, args: SyscallArgs) -> (r: SyscallRet)
    requires
        old(k).wf(),
    ensures
        final(k).wf(),
        syscall_frame(*old(k), *final(k), SyscallNumber::rx_vmar_protect),
        call_outcome(SyscallNumber::rx_vmar_protect, *old(k), *final(k), args.args@, r),
{
    let vmar_handle = #[verifier::truncate] (args.arg(0) as u32);
    let options = #[verifier::truncate] (args.arg(1) as u32);
    let addr = args.arg(2) as u64;
    let len = args.arg(3) as u64;
    vmar::sys_vmar_protect_impl(&mut k.vmars, vmar_handle, options, addr, len)
}

fn sys_channel_create(k: &mut Kernel, args: SyscallArgs) -> (r: SyscallRet)
    requires
        old(k).wf(),
    ensures
        final(k).wf(),
        syscall_frame(*old(k), *final(k), SyscallNumber::rx_channel_create),
        call_outcome(SyscallNumber::rx_channel_create, *old(k), *final(k), args.args@, r),
{
    let options = #[verifier::truncate] (args.arg(0) as u32);
    channel::sys_channel_create_impl(&mut k.channels, &mut k.handles, options)
}

fn sys_channel_write(k: &mut Kernel, args: SyscallArgs) -> (r: SyscallRet)
    requires
        old(k).wf(),
    ensures
        final(k).wf(),
        syscall_frame(*old(k), *final(k), SyscallNumber::rx_channel_write),
        call_outcome(SyscallNumber::rx_channel_write, *old(k), *final(k), args.args@, r),
{
    let handle = #[verifier::truncate] (args.arg(0) as u32);
    let options = #[verifier::truncate] (args.arg(1) as u32);
    let user_data = args.arg(2);
    let data_size = args.arg(3);
    let user_handles = args.arg(4);
    let handle_count = args.arg(5);
    channel::sys_channel_write_impl(&mut k.channels, &mut k.handles, &k.mem, handle, options, user_data, data_size, user_handles, handle_count)
}

fn sys_channel_read(k: &mut Kernel, args: SyscallArgs) -> (r: SyscallRet)
    requires
        old(k).wf(),
    ensures
        final(k).wf(),
        syscall_frame(*old(k), *final(k), SyscallNumber::rx_channel_read),
        call_outcome(SyscallNumber::rx_channel_read, *old(k), *final(k), args.args@, r),
{
    let handle = #[verifier::truncate] (args.arg(0) as u32);
    let options = #[verifier::truncate] (args.arg(1) as u32);
    let user_data = args.arg(2);
    let data_capacity = args.arg(3);
    let user_handles = args.arg(4);
    let handles_capacity = args.arg(5);
    channel::sys_channel_read_impl(&mut k.channels, &k.handles, &mut k.mem, handle, options, user_data, data_capacity, user_handles, handles_capacity)
}

fn sys_event_create(k: &mut Kernel, args: SyscallArgs) -> (r: SyscallRet)
    requires
        old(k).wf(),
    ensures
        final(k).wf(),
        syscall_frame(*old(k), *final(k), SyscallNumber::rx_event_create),
        call_outcome(SyscallNumber::rx_event_create, *old(k), *final(k), args.args@, r),
{
    let options = #[verifier::truncate] (args.arg(0) as u32);
    event::sys_event_create_impl(&mut k.events, &mut k.handles, options)
}

fn sys_eventpair_create(k: &mut Kernel, args: SyscallArgs) -> (r: SyscallRet)
    requires
        old(k).wf(),
    ensures
        final(k).wf(),
        syscall_frame(*old(k), *final(k), SyscallNumber::rx_eventpair_create),
        call_outcome(SyscallNumber::rx_eventpair_create, *old(k), *final(k), args.args@, r),
{
    event::sys_eventpair_create_impl(&mut k.events, &mut k.handles)
}

fn sys_object_signal(k: &mut Kernel, args: SyscallArgs) -> (r: SyscallRet)
    requires
        old(k).wf(),
    ensures
        final(k).wf(),
        syscall_frame(*old(k), *final(k), SyscallNumber::rx_object_signal),
        call_outcome(SyscallNumber::rx_object_signal, *old(k), *final(k), args.args@, r),
{
    let handle = #[verifier::truncate] (args.arg(0) as u32);
    let options = #[verifier::truncate] (args.arg(1) as u32);
    event::sys_object_signal_impl(&mut k.events, &k.handles, &mut k.waits, handle, options)
}

fn sys_object_wait_one(k: &mut Kernel, args: SyscallArgs) -> (r: SyscallRet)
    requires
        old(k).wf(),
    ensures
        final(k).wf(),
        syscall_frame(*old(k), *final(k), SyscallNumber::rx_object_wait_one),
        call_outcome(SyscallNumber::rx_object_wait_one, *old(k), *final(k), args.args@, r),
{
    let handle = #[verifier::truncate] (args.arg(0) as u32);
    let signals = args.arg(1) as u64;
    let deadline = args.arg(2) as u64;
    let observed_out = args.arg(3);
    object_wait::sys_object_wait_one_impl(&mut k.waits, &mut k.mem, k.current_thread, handle, signals, deadline, observed_out)
}

fn sys_object_wait_many(k: &mut Kernel, args: SyscallArgs) -> (r: SyscallRet)
    requires
        old(k).wf(),
    ensures
        final(k).wf(),
        syscall_frame(*old(k), *final(k), SyscallNumber::rx_object_wait_many),
        call_outcome(SyscallNumber::rx_object_wait_many, *old(k), *final(k), args.args@, r),
{
    let user_items = args.arg(0);
    let count = args.arg(1);
    let deadline = args.arg(2) as u64;
    object_wait::sys_object_wait_many_impl(&mut k.mem, user_items, count, deadline)
}

fn sys_job_create(k: &mut Kernel, args: SyscallArgs) -> (r: SyscallRet)
    requires
        old(k).wf(),
    ensures
        final(k).wf(),
        syscall_frame(*old(k), *final(k), SyscallNumber::rx_job_create),
        call_outcome(SyscallNumber::rx_job_create, *old(k), *final(k), args.args@, r),
{
    let parent = #[verifier::truncate] (args.arg(0) as u32);
    let options = #[verifier::truncate] (args.arg(1) as u32);
    task::sys_job_create_impl(&mut k.tasks, parent, options)
}

fn sys_handle_duplicate(k: &mut Kernel, args: SyscallArgs) -> (r: SyscallRet)
    requires
        old(k).wf(),
    ensures
        final(k).wf(),
        syscall_frame(*old(k), *final(k), SyscallNumber::rx_handle_duplicate),
        call_outcome(SyscallNumber::rx_handle_duplicate, *old(k), *final(k), args.args@, r),
{
    let handle = #[verifier::truncate] (args.arg(0) as u32);
    let rights = #[verifier::truncate] (args.arg(1) as u32);
    let out = args.arg(2);
    handle_ops::sys_handle_duplicate_impl(&mut k.handles, &mut k.mem, handle, rights, out)
}

fn sys_handle_transfer(k: &mut Kernel, args: SyscallArgs) -> (r: SyscallRet)
    requires
        old(k).wf(),
    ensures
        final(k).wf(),
        syscall_frame(*old(k), *final(k), SyscallNumber::rx_handle_transfer),
        call_outcome(SyscallNumber::rx_handle_transfer, *old(k), *final(k), args.args@, r),
{
    let handle = #[verifier::truncate] (args.arg(0) as u32);
    let rights = #[verifier::truncate] (args.arg(1) as u32);
    let options = #[verifier::truncate] (args.arg(2) as u32);
    handle_ops::sys_handle_transfer_impl(&mut k.handles, handle, rights, options)
}

fn sys_timer_create(k: &mut Kernel, args: SyscallArgs) -> (r: SyscallRet)
    requires
        old(k).wf(),
    ensures
        final(k).wf(),
        syscall_frame(*old(k), *final(k), SyscallNumber::rx_timer_create),
        call_outcome(SyscallNumber::rx_timer_create, *old(k), *final(k), args.args@, r),
{
    let options = #[verifier::truncate] (args.arg(0) as u32);
    let clock_id = #[verifier::truncate] (args.arg(1) as u32);
    timer::sys_timer_create_impl(&mut k.timers, &mut k.handles, options, clock_id)
}

fn sys_timer_set(k: &mut Kernel, args: SyscallArgs) -> (r: SyscallRet)
    requires
        old(k).wf(),
    ensures
        final(k).wf(),
        syscall_frame(*old(k), *final(k), SyscallNumber::rx_timer_set),
        call_outcome(SyscallNumber::rx_timer_set, *old(k), *final(k), args.args@, r),
{
    let handle = #[verifier::truncate] (args.arg(0) as u32);
    let deadline = args.arg(1) as u64;
    let slack = #[verifier::truncate] (args.arg(2) as i64);
    timer::sys_timer_set_impl(&mut k.timers, &k.handles, handle, deadline, slack)
}

fn sys_timer_cancel(k: &mut Kernel, args: SyscallArgs) -> (r: SyscallRet)
    requires
        old(k).wf(),
    ensures
        final(k).wf(),
        syscall_frame(*old(k), *final(k), SyscallNumber::rx_timer_cancel),
        call_outcome(SyscallNumber::rx_timer_cancel, *old(k), *final(k), args.args@, r),
{
    let handle = #[verifier::truncate] (args.arg(0) as u32);
    timer::sys_timer_cancel_impl(&mut k.timers, &k.handles, handle)
}

/// Whether mapping `len` bytes with `options` and `vmar_offset` into the
/// VMAR behind `vmar_handle` keeps the offset arithmetic within 64 bits
/// (the preconditions of `sys_vmar_map_impl`).
pub open spec fn vmar_map_fits(s: VmarSpace, vmar_handle: u32, options: u32, vmar_offset: u64, vmo_offset: u64, len: u64) -> bool {
    &&& len + PAGE_SIZE <= u64::MAX
    &&& vmo_offset + len <= u64::MAX
    &&& vmar_for_handle(s, vmar_handle) matches Ok(v) ==> (options & vmar_options::SPECIFIC == 0
        ==> crate::vmar::free_search_ok(v.children@, crate::vmar::align_up(len, PAGE_SIZE), PAGE_SIZE))
        && (options & vmar_options::SPECIFIC != 0 ==> vmar_offset + crate::vmar::align_up(len, PAGE_SIZE) <= u64::MAX)
}

/// Map a VMO into a VMAR; the mapped address goes to the (absent) seventh
/// argument, so it is never stored.  Arguments whose offset arithmetic
/// would overflow are refused with `RX_ERR_OUT_OF_RANGE`.
fn sys_vmar_map(k: &mut Kernel, args: SyscallArgs) -> (r: SyscallRet)
    requires
        old(k).wf(),
    ensures
        final(k).wf(),
        syscall_frame(*old(k), *final(k), SyscallNumber::rx_vmar_map),
        call_outcome(SyscallNumber::rx_vmar_map, *old(k), *final(k), args.args@, r),
{
    let vmar_handle = #[verifier::truncate] (args.arg(0) as u32);
    let options = #[verifier::truncate] (args.arg(1) as u32);
    let vmar_offset = args.arg(2) as u64;
    let vmo_handle = #[verifier::truncate] (args.arg(3) as u32);
    let vmo_offset = args.arg(4) as u64;
    let len = args.arg(5) as u64;
    let mapped_addr = args.arg(6);
    if len > u64::MAX - PAGE_SIZE || vmo_offset > u64::MAX - len {
        return err_to_ret(RX_ERR_OUT_OF_RANGE);
    }
    let aligned = (len + PAGE_SIZE - 1) & !(PAGE_SIZE - 1);
    match k.vmars.lookup_vmar_from_handle(vmar_handle) {
        Ok(v) => {
            if options & vmar_options::SPECIFIC != 0 {
                if vmar_offset > u64::MAX - aligned {
                    return err_to_ret(RX_ERR_OUT_OF_RANGE);
                }
            } else {
                proof {
                    k.vmars.lemma_found_wf(vmar_handle);
                }
                if !free_search_fits(&v.children, aligned, PAGE_SIZE) {
                    return err_to_ret(RX_ERR_OUT_OF_RANGE);
                }
            }
        },
        Err(_) => {},
    }
    vmar::sys_vmar_map_impl(&mut k.vmars, &k.vmos, &k.handles, &mut k.mem, vmar_handle, options, vmar_offset, vmo_handle, vmo_offset, len, mapped_addr)
}

/// Close a handle: accepted without closing anything.
fn sys_handle_close(k: &mut Kernel, args: SyscallArgs) -> (r: SyscallRet)
    ensures
        r == 0,
        *final(k) == *old(k),
{
    ok_to_ret(0)
}

/// End the calling thread with the code in the first argument.
fn sys_thread_exit(k: &mut Kernel, args: SyscallArgs) -> (r: SyscallRet)
    ensures
        r == 0,
        *final(k) == *old(k),
{
    let code = #[verifier::truncate] (args.arg(0) as i64);
    task::sys_thread_exit_impl(code)
}

/// End the calling process with the code in the first argument.
fn sys_process_exit(k: &mut Kernel, args: SyscallArgs) -> (r: SyscallRet)
    ensures
        r == 0,
        *final(k) == *old(k),
{
    let code = #[verifier::truncate] (args.arg(0) as i64);
    task::sys_process_exit_impl(code)
}

/// Read clock `arg0`: the monotonic clock (0) reads 0; any other clock is
/// refused.
fn sys_clock_get(k: &mut Kernel, args: SyscallArgs) -> (r: SyscallRet)
    ensures
        r == if arg32(args.args@, 0) == 0 { 0 } else { -RX_ERR_INVALID_ARGS as isize },
        *final(k) == *old(k),
{
    let clock_id = #[verifier::truncate] (args.arg(0) as u32);
    if clock_id == 0 {
        ok_to_ret(0)
    } else {
        err_to_ret(RX_ERR_INVALID_ARGS)
    }
}

/// Carry out system call `args.number` on `k`: the handler of that number
/// unpacks the arguments and runs the call; an unknown number is not
/// supported.  Every call keeps the kernel's invariants, changes only the
/// parts of the kernel its subsystem owns (see `syscall_frame`), and gives
/// what its handler states (see `call_outcome`).
pub fn syscall_dispatch(k: &mut Kernel, args: SyscallArgs) -> (r: SyscallRet)
    requires
        old(k).wf(),
    ensures
        final(k).wf(),
        syscall_frame(*old(k), *final(k), syscall_from_raw(args.number)),
        call_outcome(syscall_from_raw(args.number), *old(k), *final(k), args.args@, r),
{
    let num = SyscallNumber::from_raw(args.number);
    match num {
        SyscallNumber::rx_process_create => sys_process_create(k, args),
        SyscallNumber::rx_process_start => sys_process_start(k, args),
        SyscallNumber::rx_thread_create => sys_thread_create(k, args),
        SyscallNumber::rx_thread_start => sys_thread_start(k, args),
        SyscallNumber::rx_thread_exit => sys_thread_exit(k, args),
        SyscallNumber::rx_process_exit => sys_process_exit(k, args),
        SyscallNumber::rx_handle_close => sys_handle_close(k, args),
        SyscallNumber::rx_vmo_create => sys_vmo_create(k, args),
        SyscallNumber::rx_vmo_read => sys_vmo_read(k, args),
        SyscallNumber::rx_vmo_write => sys_vmo_write(k, args),
        SyscallNumber::rx_vmo_clone => sys_vmo_clone(k, args),
        SyscallNumber::rx_vmar_map => sys_vmar_map(k, args),
        SyscallNumber::rx_vmar_unmap => sys_vmar_unmap(k, args),
        SyscallNumber::rx_vmar_protect => sys_vmar_protect(k, args),
        SyscallNumber::rx_channel_create => sys_channel_create(k, args),
        SyscallNumber::rx_channel_write => sys_channel_write(k, args),
        SyscallNumber::rx_channel_read => sys_channel_read(k, args),
        SyscallNumber::rx_event_create => sys_event_create(k, args),
        SyscallNumber::rx_eventpair_create => sys_eventpair_create(k, args),
        SyscallNumber::rx_object_signal => sys_object_signal(k, args),
        SyscallNumber::rx_object_wait_one => sys_object_wait_one(k, args),
        SyscallNumber::rx_object_wait_many => sys_object_wait_many(k, args),
        SyscallNumber::rx_job_create => sys_job_create(k, args),
        SyscallNumber::rx_handle_duplicate => sys_handle_duplicate(k, args),
        SyscallNumber::rx_handle_transfer => sys_handle_transfer(k, args),
        SyscallNumber::rx_clock_get => sys_clock_get(k, args),
        SyscallNumber::rx_timer_create => sys_timer_create(k, args),
        SyscallNumber::rx_timer_set => sys_timer_set(k, args),
        SyscallNumber::rx_timer_cancel => sys_timer_cancel(k, args),
        SyscallNumber::Unknown => err_to_ret(RX_ERR_NOT_SUPPORTED),
    }
}

/// ARM64 entry: arguments in x0 to x5, the call number in x8.
pub fn arm64_syscall_entry(k: &mut Kernel, x0: usize, x1: usize, x2: usize, x3: usize, x4: usize, x5: usize, x8: u32) -> (r: SyscallRet)
    requires
        old(k).wf(),
    ensures
        final(k).wf(),
        syscall_frame(*old(k), *final(k), syscall_from_raw(x8)),
        call_outcome(syscall_from_raw(x8), *old(k), *final(k), seq![x0, x1, x2, x3, x4, x5], r),
{
    let args = SyscallArgs::new(x8, [x0, x1, x2, x3, x4, x5]);
    syscall_dispatch(k, args)
}

/// x86-64 entry: arguments in rdi, rsi, rdx, r10, r8 and r9, the call
/// number in rax.
pub fn amd64_syscall_entry(k: &mut Kernel, rdi: usize, rsi: usize, rdx: usize, r10: usize, r8: usize, r9: usize, rax: u32) -> (r: SyscallRet)
    requires
        old(k).wf(),
    ensures
        final(k).wf(),
        syscall_frame(*old(k), *final(k), syscall_from_raw(rax)),
        call_outcome(syscall_from_raw(rax), *old(k), *final(k), seq![rdi, rsi, rdx, r10, r8, r9], r),
{
    let args = SyscallArgs::new(rax, [rdi, rsi, rdx, r10, r8, r9]);
    syscall_dispatch(k, args)
}

/// RISC-V entry: arguments in a0 to a5, the call number in a7.
pub fn riscv_syscall_entry(k: &mut Kernel, a0: usize, a1: usize, a2: usize, a3: usize, a4: usize, a5: usize, a7: u32) -> (r: SyscallRet)
    requires
        old(k).wf(),
    ensures
        final(k).wf(),
        syscall_frame(*old(k), *final(k), syscall_from_raw(a7)),
        call_outcome(syscall_from_raw(a7), *old(k), *final(k), seq![a0, a1, a2, a3, a4, a5], r),
{
    let args = SyscallArgs::new(a7, [a0, a1, a2, a3, a4, a5]);
    syscall_dispatch(k, args)
}

} // verus!

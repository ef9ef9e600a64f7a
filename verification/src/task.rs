//! Threads, processes and jobs, and the syscalls that create, start, end
//! and kill them.
use vstd::prelude::*;
use std::collections::BTreeMap;
use crate::status::{Status, RX_ERR_ALREADY_EXISTS, RX_ERR_BAD_STATE, RX_ERR_INVALID_ARGS};
use crate::registry::{SlotTable, insert_post, insert_result, inserted_such_that, home_slot, updated_such_that};
use crate::usercopy::UserMemory;
use crate::{SyscallRet, err_to_ret, ok_to_ret};

verus! {

/// Identifier of a thread; zero names no thread.
pub type ThreadId = u64;

/// Identifier of a process.
pub type ProcessId = u64;

/// Identifier of a job.
pub type JobId = u64;

/// Capacity of the thread registry.
pub const MAX_THREADS: usize = 65536;

/// Number of processes the kernel is sized for.
pub const MAX_PROCESSES: usize = 65536;

/// First process id handed out.
pub const PID_FIRST_USER: ProcessId = 1;

/// Id of the root job.
pub const JOB_ID_ROOT: JobId = 1;

/// Longest thread or process name accepted, in bytes.
pub const MAX_TASK_NAME_LEN: usize = 64;

/// Lifecycle of a thread.
#[derive(Clone, Copy, Debug, PartialEq, Eq, Structural)]
pub enum ThreadState {
    Initial,
    Running,
    Exited,
}

/// A thread of process `process_id`.
pub struct Thread {
    pub tid: ThreadId,
    pub process_id: ProcessId,
    pub name: String,
    pub state: ThreadState,
    pub exit_code: i64,
}

impl Thread {
    /// A new thread, not yet started.
    pub fn new(tid: ThreadId, process_id: ProcessId, name: String) -> (r: Result<Thread, Status>)
        ensures
            r matches Ok(t) && t.tid == tid && t.process_id == process_id && t.name@ == name@ && t.state == ThreadState::Initial
                && t.exit_code == 0,
    {
        Ok(Thread { tid, process_id, name, state: ThreadState::Initial, exit_code: 0 })
    }

    pub fn tid(&self) -> (t: ThreadId)
        ensures
            t == self.tid,
    {
        self.tid
    }

    /// Start a thread that was never started; any other is in the wrong
    /// state.
    pub fn start(&mut self) -> (r: Result<(), Status>)
        ensures
            final(self).tid == old(self).tid,
            final(self).process_id == old(self).process_id,
            final(self).name@ == old(self).name@,
            final(self).exit_code == old(self).exit_code,
            old(self).state == ThreadState::Initial ==> r is Ok && final(self).state == ThreadState::Running,
            old(self).state != ThreadState::Initial ==> r == Err::<(), Status>(RX_ERR_BAD_STATE) && final(self).state == old(self).state,
    {
        if self.state != ThreadState::Initial {
            return Err(RX_ERR_BAD_STATE);
        }
        self.state = ThreadState::Running;
        Ok(())
    }

    /// End the thread with `code`.
    pub fn exit(&mut self, code: i64)
        ensures
            final(self).tid == old(self).tid,
            final(self).process_id == old(self).process_id,
            final(self).name@ == old(self).name@,
            final(self).state == ThreadState::Exited,
            final(self).exit_code == code,
    {
        self.state = ThreadState::Exited;
        self.exit_code = code;
    }
}

/// Every thread known to the kernel, by id.
pub struct ThreadRegistry {
    pub table: SlotTable<Thread>,
}

impl ThreadRegistry {
    pub open spec fn wf(&self) -> bool {
        self.table.wf()
    }

    /// Thread registered under `tid`, as a lookup sees it (never for 0).
    pub open spec fn find(&self, tid: ThreadId) -> Option<Thread> {
        if tid == 0 {
            None
        } else {
            self.table.find(tid)
        }
    }

    /// An empty registry of `MAX_THREADS` slots.
    pub fn new() -> (r: ThreadRegistry)
        ensures
            r.wf(),
            r.table.slots@.len() == MAX_THREADS,
            r.table.count == 0,
            r.table.next_index == 0,
            forall|i: int| 0 <= i < MAX_THREADS ==> r.table.slots@[i] is None,
            forall|id: u64| #[trigger] r.table.find(id) is None,
    {
        ThreadRegistry { table: SlotTable::new(MAX_THREADS) }
    }

    /// Register `thread` under its id, in the first free slot probing the
    /// whole table from its home slot.
    pub fn insert(&mut self, thread: Thread) -> (r: Result<ThreadId, Status>)
        requires
            old(self).wf(),
        ensures
            final(self).wf(),
            insert_post(old(self).table, final(self).table, thread.tid, thread, r),
    {
        let tid = thread.tid;
        self.table.insert(tid, thread)
    }

    /// Thread registered under `tid`; 0 names no thread.
    pub fn get(&self, tid: ThreadId) -> (r: Option<&Thread>)
        requires
            self.wf(),
        ensures
            r matches Some(v) ==> self.find(tid) == Some(*v),
            r is None ==> self.find(tid) is None,
    {
        if tid == 0 {
            return None;
        }
        self.table.get(tid)
    }

    /// Number of threads counted as registered.
    pub fn count(&self) -> (c: usize)
        ensures
            c == self.table.count,
    {
        self.table.count
    }
}

/// Kind of a process.
#[derive(Clone, Copy, Debug, PartialEq, Eq, Structural)]
pub enum ProcessFlags {
    Ordinary,
    Loader,
    Test,
    System,
}

/// Lifecycle of a process.
#[derive(Clone, Copy, Debug, PartialEq, Eq, Structural)]
pub enum ProcessState {
    Creating,
    Running,
    Exited,
}

/// A process of job `job_id`.
pub struct Process {
    pub pid: ProcessId,
    pub job_id: JobId,
    pub state: ProcessState,
    pub flags: ProcessFlags,
    pub name: String,
    pub exit_code: i64,
}

impl Process {
    /// A new process in the creating state, with no name yet.
    pub fn new(pid: ProcessId, job_id: JobId, flags: ProcessFlags) -> (r: Result<Process, Status>)
        ensures
            r matches Ok(p) && p.pid == pid && p.job_id == job_id && p.state == ProcessState::Creating && p.flags == flags
                && p.name@.len() == 0 && p.exit_code == 0,
    {
        Ok(Process { pid, job_id, state: ProcessState::Creating, flags, name: String::new(), exit_code: 0 })
    }

    pub fn state(&self) -> (s: ProcessState)
        ensures
            s == self.state,
    {
        self.state
    }
}

/// A job: a group of processes under a parent job.
#[derive(Clone, Copy, Debug, PartialEq, Eq, Structural)]
pub struct Job {
    pub id: JobId,
    pub parent: JobId,
    pub options: u32,
}

impl Job {
    /// A child job of `parent` with id `id`; options must be 0.
    pub fn new_child(parent: &Job, id: JobId, options: u32) -> (r: Result<Job, Status>)
        ensures
            options != 0 ==> r == Err::<Job, Status>(RX_ERR_INVALID_ARGS),
            options == 0 ==> r == Ok::<Job, Status>(Job { id, parent: parent.id, options }),
    {
        if options != 0 {
            return Err(RX_ERR_INVALID_ARGS);
        }
        Ok(Job { id, parent: parent.id, options })
    }
}

/// The threads, processes and jobs of the kernel, and the next ids to hand
/// out.
pub struct TaskSubsystem {
    pub threads: ThreadRegistry,
    pub processes: BTreeMap<ProcessId, Process>,
    pub jobs: BTreeMap<JobId, Job>,
    pub next_tid: ThreadId,
    pub next_pid: ProcessId,
    pub next_job_id: JobId,
}

impl TaskSubsystem {
    /// No threads or processes, and only the root job.
    pub fn new() -> (s: TaskSubsystem)
        ensures
            s.threads.wf(),
            s.threads.table.count == 0,
            s.processes@ == Map::<ProcessId, Process>::empty(),
            s.jobs@ == Map::<JobId, Job>::empty().insert(JOB_ID_ROOT, Job { id: JOB_ID_ROOT, parent: JOB_ID_ROOT, options: 0 }),
            s.next_tid == 1,
            s.next_pid == PID_FIRST_USER,
            s.next_job_id == JOB_ID_ROOT + 1,
    {
        let mut s = TaskSubsystem {
            threads: ThreadRegistry::new(),
            processes: BTreeMap::new(),
            jobs: BTreeMap::new(),
            next_tid: 1,
            next_pid: PID_FIRST_USER,
            next_job_id: JOB_ID_ROOT + 1,
        };
        init_root_job(&mut s);
        s
    }
}

/// Register the root job, its own parent.
pub fn init_root_job(tasks: &mut TaskSubsystem)
    ensures
        final(tasks).jobs@ == old(tasks).jobs@.insert(JOB_ID_ROOT, Job { id: JOB_ID_ROOT, parent: JOB_ID_ROOT, options: 0 }),
        final(tasks).threads == old(tasks).threads,
        final(tasks).processes == old(tasks).processes,
        final(tasks).next_tid == old(tasks).next_tid,
        final(tasks).next_pid == old(tasks).next_pid,
        final(tasks).next_job_id == old(tasks).next_job_id,
{
    tasks.jobs.insert(JOB_ID_ROOT, Job { id: JOB_ID_ROOT, parent: JOB_ID_ROOT, options: 0 });
}

/// The text `String::from_utf8_lossy` makes of the bytes `b`: `b` decoded
/// as UTF-8, with each invalid sequence replaced by U+FFFD.
pub uninterp spec fn lossy_utf8(b: Seq<u8>) -> Seq<char>;

/// `String::from_utf8_lossy`, made an owned `String`: the contract names
/// its result `lossy_utf8` of the bytes and states nothing else of it.
#[verifier::external_body]
fn utf8_lossy_string(bytes: &[u8]) -> (s: String)
    ensures
        s@ == lossy_utf8(bytes@),
{
    String::from_utf8_lossy(bytes).into_owned()
}

/// The name given to a task created without one.
pub open spec fn anonymous_name() -> Seq<char> {
    "anonymous"@
}

/// The name a create call gives a task: the `name_len` bytes of user memory
/// at `name` (at most `MAX_TASK_NAME_LEN`) read as UTF-8 (see
/// `lossy_utf8`), or "anonymous" when `name_len` is 0.
pub open spec fn task_name(mem: UserMemory, name: usize, name_len: usize) -> Result<Seq<char>, Status> {
    if name_len == 0 {
        Ok(anonymous_name())
    } else if name_len > MAX_TASK_NAME_LEN || !mem.range_ok(name, name_len) {
        Err(RX_ERR_INVALID_ARGS)
    } else {
        Ok(lossy_utf8(mem.bytes_at(name, name_len)))
    }
}

/// Read the name of a task being created (see `task_name`).
fn read_task_name(mem: &UserMemory, name: usize, name_len: usize) -> (r: Result<String, Status>)
    ensures
        match task_name(*mem, name, name_len) {
            Ok(n) => r matches Ok(v) && v@ == n,
            Err(e) => r == Err::<String, Status>(e),
        },
{
    if name_len == 0 {
        return Ok("anonymous".to_owned());
    }
    if name_len > MAX_TASK_NAME_LEN {
        return Err(RX_ERR_INVALID_ARGS);
    }
    match mem.copy_from_user(name, name_len) {
        Ok(bytes) => Ok(utf8_lossy_string(bytes.as_slice())),
        Err(e) => Err(e),
    }
}

/// Outcome of adding a thread named `nm` to `tasks`: `r` is the result and
/// `tasks_after` the tasks afterwards.
pub open spec fn thread_named_outcome(tasks: TaskSubsystem, tasks_after: TaskSubsystem, nm: Seq<char>, r: SyscallRet) -> bool {
    let tid = tasks.next_tid;
    let rr = insert_result(tasks.threads.table, tid);
    &&& tasks_after.processes == tasks.processes
    &&& tasks_after.jobs == tasks.jobs
    &&& tasks_after.next_pid == tasks.next_pid
    &&& tasks_after.next_job_id == tasks.next_job_id
    &&& tasks_after.next_tid == tid.wrapping_add(1)
    &&& inserted_such_that(tasks.threads.table, tasks_after.threads.table, tid, rr,
        |t: Thread| t.tid == tid && t.process_id == 0 && t.name@ == nm && t.state == ThreadState::Initial && t.exit_code == 0)
    &&& match rr {
        Ok(_) => r == (#[verifier::truncate] (tid as usize)) as isize,
        Err(e) => r == -e,
    }
}

/// Add a thread named `name` under the next thread id, which is consumed
/// whether or not the registry has room.
pub fn create_named_thread(tasks: &mut TaskSubsystem, name: String) -> (r: SyscallRet)
    requires
        old(tasks).threads.wf(),
    ensures
        final(tasks).threads.wf(),
        thread_named_outcome(*old(tasks), *final(tasks), name@, r),
{
    let tid = tasks.next_tid;
    tasks.next_tid = tid.wrapping_add(1);
    let thread = match Thread::new(tid, 0, name) {
        Ok(t) => t,
        Err(err) => {
            return err_to_ret(err);
        },
    };
    match tasks.threads.insert(thread) {
        Ok(id) => ok_to_ret(#[verifier::truncate] (id as usize)),
        Err(err) => err_to_ret(err),
    }
}

/// Outcome of adding a process named `nm`, of the kind `options` asks for,
/// to `tasks`: `r` is the result and `tasks_after` the tasks afterwards.
pub open spec fn process_named_outcome(tasks: TaskSubsystem, tasks_after: TaskSubsystem, nm: Seq<char>, options: u32, r: SyscallRet) -> bool {
    let pid = tasks.next_pid;
    &&& tasks_after.threads == tasks.threads
    &&& tasks_after.jobs == tasks.jobs
    &&& tasks_after.next_tid == tasks.next_tid
    &&& tasks_after.next_job_id == tasks.next_job_id
    &&& tasks_after.next_pid == pid.wrapping_add(1)
    &&& if tasks.processes@.contains_key(pid) {
        r == -RX_ERR_ALREADY_EXISTS && tasks_after.processes@ == tasks.processes@
    } else {
        let p = tasks_after.processes@[pid];
        &&& r == (#[verifier::truncate] (pid as usize)) as isize
        &&& tasks_after.processes@ == tasks.processes@.insert(pid, p)
        &&& p.pid == pid && p.job_id == JOB_ID_ROOT && p.state == ProcessState::Creating
        &&& p.flags == process_flags_of(options) && p.name@ == nm && p.exit_code == 0
    }
}

/// Add a process named `name` to the root job under the next process id
/// (consumed either way), of the kind the option bits ask for (see
/// `process_flags_of`); an id already in use is `RX_ERR_ALREADY_EXISTS`.
pub fn create_named_process(tasks: &mut TaskSubsystem, name: String, options: u32) -> (r: SyscallRet)
    ensures
        process_named_outcome(*old(tasks), *final(tasks), name@, options, r),
{
    let flags = if options & 0x01 != 0 {
        ProcessFlags::Loader
    } else if options & 0x02 != 0 {
        ProcessFlags::Test
    } else if options & 0x04 != 0 {
        ProcessFlags::System
    } else {
        ProcessFlags::Ordinary
    };
    let pid = tasks.next_pid;
    tasks.next_pid = pid.wrapping_add(1);
    let mut process = match Process::new(pid, JOB_ID_ROOT, flags) {
        Ok(p) => p,
        Err(err) => {
            return err_to_ret(err);
        },
    };
    process.name = name;
    if tasks.processes.contains_key(&pid) {
        return err_to_ret(RX_ERR_ALREADY_EXISTS);
    }
    tasks.processes.insert(pid, process);
    ok_to_ret(#[verifier::truncate] (pid as usize))
}

/// Outcome of creating a thread named by `name_len` bytes at `name`: `r` is the result and a name ending in `_after` is that state after the call.
pub open spec fn thread_create_outcome(
    tasks: TaskSubsystem,
    tasks_after: TaskSubsystem,
    mem: UserMemory,
    process_handle: u32,
    name: usize,
    name_len: usize,
    options: u32,
    r: SyscallRet,
) -> bool {
    &&& tasks_after.processes == tasks.processes
    &&& tasks_after.jobs == tasks.jobs
    &&& tasks_after.next_pid == tasks.next_pid
    &&& tasks_after.next_job_id == tasks.next_job_id
    &&& options != 0 ==> r == -RX_ERR_INVALID_ARGS && tasks_after == tasks
    &&& options == 0 ==> match task_name(mem, name, name_len) {
        Err(e) => r == -e && tasks_after == tasks,
        Ok(nm) => thread_named_outcome(tasks, tasks_after, nm, r),
    }
}

/// Create a thread named from user memory (see `task_name`); options must
/// be 0.  A thread id is consumed once the name is read, and the result is
/// the new thread's id.
pub fn sys_thread_create_impl(tasks: &mut TaskSubsystem, mem: &UserMemory, process_handle: u32, name: usize, name_len: usize, options: u32) -> (r: SyscallRet)
    requires
        old(tasks).threads.wf(),
    ensures
        final(tasks).threads.wf(),
        thread_create_outcome(*old(tasks), *final(tasks), *mem, process_handle, name, name_len, options, r),
{
    if options != 0 {
        return err_to_ret(RX_ERR_INVALID_ARGS);
    }
    let thread_name = match read_task_name(mem, name, name_len) {
        Ok(n) => n,
        Err(err) => {
            return err_to_ret(err);
        },
    };
    create_named_thread(tasks, thread_name)
}

/// Outcome of starting thread `thread_handle`: `r` is the result and a name ending in `_after` is that state after the call.
pub open spec fn thread_start_outcome(
    tasks: TaskSubsystem,
    tasks_after: TaskSubsystem,
    thread_handle: u32,
    entry: u64,
    stack: u64,
    arg1: u64,
    arg2: u64,
    r: SyscallRet,
) -> bool {
    &&& tasks_after.processes == tasks.processes
    &&& tasks_after.jobs == tasks.jobs
    &&& tasks_after.next_tid == tasks.next_tid
    &&& match tasks.threads.find(thread_handle as u64) {
        None => r == -RX_ERR_INVALID_ARGS && tasks_after.threads == tasks.threads,
        Some(t) => if t.state != ThreadState::Initial {
            r == -RX_ERR_BAD_STATE && tasks_after.threads == tasks.threads
        } else {
            r == 0 && updated_such_that(tasks.threads.table, tasks_after.threads.table, thread_handle as u64,
                |u: Thread| u.tid == t.tid && u.process_id == t.process_id && u.name@ == t.name@
                    && u.exit_code == t.exit_code && u.state == ThreadState::Running)
        },
    }
}

/// Start the thread whose id is `thread_handle`; it must exist and never
/// have been started.
pub fn sys_thread_start_impl(tasks: &mut TaskSubsystem, thread_handle: u32, entry: u64, stack: u64, arg1: u64, arg2: u64) -> (r: SyscallRet)
    requires
        old(tasks).threads.wf(),
    ensures
        final(tasks).threads.wf(),
        thread_start_outcome(*old(tasks), *final(tasks), thread_handle, entry, stack, arg1, arg2, r),
{
    let tid = thread_handle as ThreadId;
    start_thread(tasks, tid)
}

/// Start thread `tid` (see `sys_thread_start_impl`).
fn start_thread(tasks: &mut TaskSubsystem, tid: ThreadId) -> (r: SyscallRet)
    requires
        old(tasks).threads.wf(),
    ensures
        final(tasks).threads.wf(),
        final(tasks).processes == old(tasks).processes,
        final(tasks).jobs == old(tasks).jobs,
        final(tasks).next_tid == old(tasks).next_tid,
        final(tasks).next_pid == old(tasks).next_pid,
        final(tasks).next_job_id == old(tasks).next_job_id,
        match old(tasks).threads.find(tid) {
            None => r == -RX_ERR_INVALID_ARGS && final(tasks).threads == old(tasks).threads,
            Some(t) => if t.state != ThreadState::Initial {
                r == -RX_ERR_BAD_STATE && final(tasks).threads == old(tasks).threads
            } else {
                r == 0 && updated_such_that(old(tasks).threads.table, final(tasks).threads.table, tid,
                    |u: Thread| u.tid == t.tid && u.process_id == t.process_id && u.name@ == t.name@
                        && u.exit_code == t.exit_code && u.state == ThreadState::Running)
            },
        },
{
    match tasks.threads.get(tid) {
        Some(t) => {
            if t.state != ThreadState::Initial {
                return err_to_ret(RX_ERR_BAD_STATE);
            }
        },
        None => {
            return err_to_ret(RX_ERR_INVALID_ARGS);
        },
    }
    match tasks.threads.table.get_mut(tid) {
        Some(t) => match t.start() {
            Ok(()) => ok_to_ret(0),
            Err(err) => err_to_ret(err),
        },
        None => err_to_ret(RX_ERR_INVALID_ARGS),
    }
}

/// Exit the calling thread: nothing is tracked, so this only succeeds.
pub fn sys_thread_exit_impl(exit_code: i64) -> (r: SyscallRet)
    ensures
        r == 0,
{
    ok_to_ret(0)
}

/// Kind of process the option bits ask for: loader, test or system, in
/// that order of precedence, else an ordinary process.
pub open spec fn process_flags_of(options: u32) -> ProcessFlags {
    if options & 0x01 != 0 {
        ProcessFlags::Loader
    } else if options & 0x02 != 0 {
        ProcessFlags::Test
    } else if options & 0x04 != 0 {
        ProcessFlags::System
    } else {
        ProcessFlags::Ordinary
    }
}

/// Law: a created process is of the kind the option bits ask for, the lower
/// bit winning: a loader with bit 0x01, else a test process with bit 0x02,
/// else a system process with bit 0x04, else an ordinary process.
pub proof fn lemma_process_kind(tasks: TaskSubsystem, tasks_after: TaskSubsystem, nm: Seq<char>, options: u32, r: SyscallRet)
    requires
        process_named_outcome(tasks, tasks_after, nm, options, r),
        !tasks.processes@.contains_key(tasks.next_pid),
    ensures
        ({
            let f = tasks_after.processes@[tasks.next_pid].flags;
            &&& tasks_after.processes@.contains_key(tasks.next_pid)
            &&& options & 0x01 != 0 ==> f == ProcessFlags::Loader
            &&& options & 0x01 == 0 && options & 0x02 != 0 ==> f == ProcessFlags::Test
            &&& options & 0x03 == 0 && options & 0x04 != 0 ==> f == ProcessFlags::System
            &&& options & 0x07 == 0 ==> f == ProcessFlags::Ordinary
        }),
{
    assert(options & 0x03 == 0 ==> options & 0x01 == 0 && options & 0x02 == 0) by (bit_vector);
    assert(options & 0x07 == 0 ==> options & 0x01 == 0 && options & 0x02 == 0 && options & 0x04 == 0) by (bit_vector);
}

/// Outcome of creating a process named by `name_len` bytes at `name`: `r` is the result and a name ending in `_after` is that state after the call.
pub open spec fn process_create_outcome(
    tasks: TaskSubsystem,
    tasks_after: TaskSubsystem,
    mem: UserMemory,
    job_handle: u32,
    name: usize,
    name_len: usize,
    options: u32,
    r: SyscallRet,
) -> bool {
    &&& tasks_after.threads == tasks.threads
    &&& tasks_after.jobs == tasks.jobs
    &&& tasks_after.next_tid == tasks.next_tid
    &&& tasks_after.next_job_id == tasks.next_job_id
    &&& match task_name(mem, name, name_len) {
        Err(e) => r == -e && tasks_after == tasks,
        Ok(nm) => process_named_outcome(tasks, tasks_after, nm, options, r),
    }
}

/// Create a process in the root job, named from user memory (see
/// `task_name`), of the kind the option bits ask for (see
/// `process_flags_of`).  A process id is consumed once the name is read;
/// the result is the new process's id.
pub fn sys_process_create_impl(tasks: &mut TaskSubsystem, mem: &UserMemory, job_handle: u32, name: usize, name_len: usize, options: u32) -> (r: SyscallRet)
    ensures
        process_create_outcome(*old(tasks), *final(tasks), *mem, job_handle, name, name_len, options, r),
{
    let process_name = match read_task_name(mem, name, name_len) {
        Ok(n) => n,
        Err(err) => {
            return err_to_ret(err);
        },
    };
    create_named_process(tasks, process_name, options)
}

/// Outcome of starting process `process_handle` with thread `thread_handle`: `r` is the result and a name ending in `_after` is that state after the call.
pub open spec fn process_start_outcome(
    tasks: TaskSubsystem,
    tasks_after: TaskSubsystem,
    process_handle: u32,
    thread_handle: u32,
    entry: u64,
    stack: u64,
    r: SyscallRet,
) -> bool {
    &&& tasks_after.jobs == tasks.jobs
    &&& tasks_after.next_tid == tasks.next_tid
    &&& tasks_after.next_pid == tasks.next_pid
    &&& !tasks.processes@.contains_key(process_handle as u64) ==> r == -RX_ERR_INVALID_ARGS && tasks_after == tasks
    &&& tasks.processes@.contains_key(process_handle as u64) ==> {
        let pid = process_handle as u64;
        &&& tasks_after.processes@ == tasks.processes@.insert(pid, Process { state: ProcessState::Running, ..tasks.processes@[pid] })
        &&& match tasks.threads.find(thread_handle as u64) {
            None => r == -RX_ERR_INVALID_ARGS && tasks_after.threads == tasks.threads,
            Some(t) => if t.state != ThreadState::Initial {
                r == -RX_ERR_BAD_STATE && tasks_after.threads == tasks.threads
            } else {
                r == 0 && updated_such_that(tasks.threads.table, tasks_after.threads.table, thread_handle as u64,
                    |u: Thread| u.tid == t.tid && u.process_id == t.process_id && u.name@ == t.name@
                        && u.exit_code == t.exit_code && u.state == ThreadState::Running)
            },
        }
    }
}

/// Start the process whose id is `process_handle` with the thread whose id
/// is `thread_handle`: the process is marked running once found, then the
/// thread is started as by `sys_thread_start_impl`.
pub fn sys_process_start_impl(tasks: &mut TaskSubsystem, process_handle: u32, thread_handle: u32, entry: u64, stack: u64) -> (r: SyscallRet)
    requires
        old(tasks).threads.wf(),
    ensures
        final(tasks).threads.wf(),
        process_start_outcome(*old(tasks), *final(tasks), process_handle, thread_handle, entry, stack, r),
{
    let pid = process_handle as ProcessId;
    if !tasks.processes.contains_key(&pid) {
        return err_to_ret(RX_ERR_INVALID_ARGS);
    }
    let mut process = match tasks.processes.remove(&pid) {
        Some(p) => p,
        None => {
            return err_to_ret(RX_ERR_INVALID_ARGS);
        },
    };
    process.state = ProcessState::Running;
    tasks.processes.insert(pid, process);
    proof {
        assert(tasks.processes@ =~= old(tasks).processes@.insert(pid, Process { state: ProcessState::Running, ..old(tasks).processes@[pid] }));
    }
    start_thread(tasks, thread_handle as ThreadId)
}

/// Exit the calling process: nothing is tracked, so this only succeeds.
pub fn sys_process_exit_impl(exit_code: i64) -> (r: SyscallRet)
    ensures
        r == 0,
{
    ok_to_ret(0)
}

/// Kill the task whose id is `task_handle`: a process of that id is ended
/// and forgotten; otherwise a thread of that id is ended; otherwise the id
/// is refused.
pub fn sys_task_kill_impl(tasks: &mut TaskSubsystem, task_handle: u32) -> (r: SyscallRet)
    requires
        old(tasks).threads.wf(),
    ensures
        final(tasks).threads.wf(),
        final(tasks).jobs == old(tasks).jobs,
        final(tasks).next_tid == old(tasks).next_tid,
        final(tasks).next_pid == old(tasks).next_pid,
        old(tasks).processes@.contains_key(task_handle as u64) ==> r == 0
            && final(tasks).processes@ == old(tasks).processes@.remove(task_handle as u64)
            && final(tasks).threads == old(tasks).threads,
        !old(tasks).processes@.contains_key(task_handle as u64) ==> final(tasks).processes == old(tasks).processes
            && match old(tasks).threads.find(task_handle as u64) {
                None => r == -RX_ERR_INVALID_ARGS && final(tasks).threads == old(tasks).threads,
                Some(t) => r == 0 && updated_such_that(old(tasks).threads.table, final(tasks).threads.table, task_handle as u64,
                    |u: Thread| u.tid == t.tid && u.process_id == t.process_id && u.name@ == t.name@
                        && u.state == ThreadState::Exited && u.exit_code == 0),
            },
{
    let pid = task_handle as ProcessId;
    if tasks.processes.contains_key(&pid) {
        match tasks.processes.remove(&pid) {
            Some(mut process) => {
                process.state = ProcessState::Exited;
                process.exit_code = 0;
            },
            None => {},
        }
        return ok_to_ret(0);
    }
    let tid = task_handle as ThreadId;
    if tid == 0 {
        return err_to_ret(RX_ERR_INVALID_ARGS);
    }
    match tasks.threads.table.get_mut(tid) {
        Some(t) => {
            t.exit(0);
            ok_to_ret(0)
        },
        None => err_to_ret(RX_ERR_INVALID_ARGS),
    }
}

/// Outcome of creating a job under `parent_job`: `r` is the result and a name ending in `_after` is that state after the call.
pub open spec fn job_create_outcome(
    tasks: TaskSubsystem,
    tasks_after: TaskSubsystem,
    parent_job: u32,
    options: u32,
    r: SyscallRet,
) -> bool {
    &&& tasks_after.threads == tasks.threads
    &&& tasks_after.processes == tasks.processes
    &&& tasks_after.next_tid == tasks.next_tid
    &&& tasks_after.next_pid == tasks.next_pid
    &&& ({
        let parent_id = if parent_job == 0 { JOB_ID_ROOT } else { parent_job as u64 };
        let id = tasks.next_job_id;
        if !tasks.jobs@.contains_key(parent_id) || options != 0 {
            r == -RX_ERR_INVALID_ARGS && tasks_after == tasks
        } else if tasks.jobs@.contains_key(id) {
            r == -RX_ERR_ALREADY_EXISTS && tasks_after.jobs@ == tasks.jobs@ && tasks_after.next_job_id == id.wrapping_add(1)
        } else {
            &&& r == (#[verifier::truncate] (id as usize)) as isize
            &&& tasks_after.jobs@ == tasks.jobs@.insert(id, Job { id, parent: tasks.jobs@[parent_id].id, options: 0 })
            &&& tasks_after.next_job_id == id.wrapping_add(1)
        }
    })
}

/// Create a child job of the job registered under `parent_job` (0 means
/// the root job; the child records that job's own id as its parent);
/// options must be 0.  The result is the new job's id.
pub fn sys_job_create_impl(tasks: &mut TaskSubsystem, parent_job: u32, options: u32) -> (r: SyscallRet)
    ensures
        job_create_outcome(*old(tasks), *final(tasks), parent_job, options, r),
{
    let parent_job_id: JobId = if parent_job == 0 { JOB_ID_ROOT } else { parent_job as JobId };
    let parent = match tasks.jobs.get(&parent_job_id) {
        Some(j) => *j,
        None => {
            return err_to_ret(RX_ERR_INVALID_ARGS);
        },
    };
    if options != 0 {
        return err_to_ret(RX_ERR_INVALID_ARGS);
    }
    let id = tasks.next_job_id;
    tasks.next_job_id = id.wrapping_add(1);
    let child = match Job::new_child(&parent, id, options) {
        Ok(j) => j,
        Err(err) => {
            return err_to_ret(err);
        },
    };
    if tasks.jobs.contains_key(&id) {
        return err_to_ret(RX_ERR_ALREADY_EXISTS);
    }
    tasks.jobs.insert(id, child);
    ok_to_ret(#[verifier::truncate] (child.id as usize))
}

/// Task subsystem statistics.
#[derive(Clone, Copy, Debug)]
pub struct TaskStats {
    pub total_threads: usize,
    pub total_processes: usize,
    pub active_processes: usize,
}

/// Current task statistics: the registered threads, the process capacity
/// (processes are not counted) and no active process count.
pub fn get_stats(tasks: &TaskSubsystem) -> (st: TaskStats)
    ensures
        st.total_threads == tasks.threads.table.count,
        st.total_processes == MAX_PROCESSES,
        st.active_processes == 0,
{
    TaskStats { total_threads: tasks.threads.count(), total_processes: MAX_PROCESSES, active_processes: 0 }
}

/// Initialize the task syscall subsystem: register the root job.
pub fn init(tasks: &mut TaskSubsystem)
    ensures
        final(tasks).jobs@ == old(tasks).jobs@.insert(JOB_ID_ROOT, Job { id: JOB_ID_ROOT, parent: JOB_ID_ROOT, options: 0 }),
{
    init_root_job(tasks);
}

} // verus!

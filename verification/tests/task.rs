use rustux_syscalls::err_to_ret;
use rustux_syscalls::status::RX_ERR_INVALID_ARGS;
use rustux_syscalls::task::{
    sys_job_create_impl, sys_process_create_impl, sys_thread_create_impl, Process, ProcessFlags, ProcessState,
    TaskSubsystem, Thread, ThreadRegistry, JOB_ID_ROOT, PID_FIRST_USER,
};
use rustux_syscalls::usercopy::UserMemory;

#[test]
fn test_thread_registry() {
    let mut reg = ThreadRegistry::new();
    let thread = Thread::new(1, 0, String::from("test")).unwrap();
    let expected = thread.tid();
    let tid = reg.insert(thread).unwrap();
    assert_eq!(tid, expected);
    let retrieved = reg.get(tid).unwrap();
    assert_eq!(retrieved.tid(), expected);
}

#[test]
fn test_process_create() {
    let process = Process::new(PID_FIRST_USER, 1, ProcessFlags::Test).unwrap();
    assert!(process.pid >= PID_FIRST_USER);
    assert_eq!(process.state(), ProcessState::Creating);
    assert_eq!(process.job_id, 1);
}

#[test]
fn test_process_flags() {
    let flags = ProcessFlags::Loader;
    assert!(matches!(flags, ProcessFlags::Loader));
    let flags = ProcessFlags::Ordinary;
    assert!(matches!(flags, ProcessFlags::Ordinary));
}

#[test]
fn test_thread_name_validation() {
    let mut tasks = TaskSubsystem::new();
    let mem = UserMemory::new(0x1000, 128);
    assert!(sys_thread_create_impl(&mut tasks, &mem, 0, 0, 0, 0) >= 0);
    assert!(sys_thread_create_impl(&mut tasks, &mem, 0, 0, 0, 1) < 0);
}

#[test]
fn test_job_create() {
    let mut tasks = TaskSubsystem::new();
    assert!(sys_job_create_impl(&mut tasks, 0, 0) >= 0);
    assert!(sys_job_create_impl(&mut tasks, 0, 1) < 0);
}

#[test]
fn task_ids_and_names() {
    let mut tasks = TaskSubsystem::new();
    let mut mem = UserMemory::new(0x1000, 128);
    mem.bytes[0..3].copy_from_slice(b"abc");
    assert_eq!(sys_thread_create_impl(&mut tasks, &mem, 0, 0x1000, 3, 0), 1);
    assert_eq!(sys_thread_create_impl(&mut tasks, &mem, 0, 0x1000, 65, 0), err_to_ret(RX_ERR_INVALID_ARGS));
    assert_eq!(tasks.threads.get(1).unwrap().name, "abc");
    assert_eq!(sys_thread_create_impl(&mut tasks, &mem, 0, 0, 0, 0), 2);
    assert_eq!(tasks.threads.get(2).unwrap().name, "anonymous");
    let p = sys_process_create_impl(&mut tasks, &mem, 0, 0x1000, 3, 0);
    assert_eq!(p, PID_FIRST_USER as isize);
    assert_eq!(tasks.processes.get(&PID_FIRST_USER).unwrap().name, "abc");
    assert_eq!(sys_job_create_impl(&mut tasks, 0, 0), (JOB_ID_ROOT + 1) as isize);
    assert_eq!(tasks.jobs.get(&(JOB_ID_ROOT + 1)).unwrap().parent, JOB_ID_ROOT);
    assert_eq!(sys_job_create_impl(&mut tasks, 77, 0), err_to_ret(RX_ERR_INVALID_ARGS));
}

#[test]
fn task_names_are_read_as_utf8_with_replacement() {
    let mut tasks = TaskSubsystem::new();
    let mut mem = UserMemory::new(0x1000, 128);
    mem.bytes[0..4].copy_from_slice(&[0x61, 0xFF, 0xC3, 0xA9]);
    assert_eq!(sys_thread_create_impl(&mut tasks, &mem, 0, 0x1000, 4, 0), 1);
    assert_eq!(tasks.threads.get(1).unwrap().name, "a\u{FFFD}\u{E9}");
    let p = sys_process_create_impl(&mut tasks, &mem, 0, 0x1000, 2, 0);
    assert_eq!(tasks.processes.get(&(p as u64)).unwrap().name, "a\u{FFFD}");
}

use rustux_syscalls::err_to_ret;
use rustux_syscalls::exceptions::{
    exception_port_options, resume_options, sys_task_bind_exception_port_impl, sys_task_resume_from_exception_impl,
    ExceptionPort, ExceptionPortType,
};
use rustux_syscalls::exception::{handle_exception, ExceptionContext};
use rustux_syscalls::kobject::{Handle, HandleTable, ObjectType, RIGHTS_DEFAULT};
use rustux_syscalls::status::{RX_ERR_BAD_HANDLE, RX_ERR_INVALID_ARGS, RX_ERR_WRONG_TYPE};

#[test]
fn test_exception_port_options() {
    assert_eq!(exception_port_options::NONE, 0);
    assert_eq!(exception_port_options::DEBUGGER, 0x01);
}

#[test]
fn test_resume_options() {
    assert_eq!(resume_options::NONE, 0);
    assert_eq!(resume_options::TRY_NEXT, 0x01);
}

#[test]
fn test_exception_port_type() {
    assert_eq!(ExceptionPortType::Thread.into_raw(), 0);
    assert_eq!(ExceptionPortType::Process.into_raw(), 1);
    assert_eq!(ExceptionPortType::Job.into_raw(), 2);
    assert_eq!(ExceptionPortType::JobDebugger.into_raw(), 3);
    assert_eq!(ExceptionPortType::Debugger.into_raw(), 4);
}

#[test]
fn test_exception_port_new() {
    let eport = ExceptionPort::new(1, ExceptionPortType::Process, 42, 0x1234, 100);
    assert_eq!(eport.port_handle(), 42);
    assert_eq!(eport.key(), 0x1234);
    assert_eq!(eport.target_handle(), 100);
    assert!(!eport.is_bound());
}

#[test]
fn test_exception_port_bind_unbind() {
    let mut eport = ExceptionPort::new(1, ExceptionPortType::Thread, 1, 0, 2);
    assert!(!eport.is_bound());
    eport.bind();
    assert!(eport.is_bound());
    eport.unbind();
    assert!(!eport.is_bound());
}

fn table_with(kind: ObjectType) -> HandleTable {
    let mut t = HandleTable::new();
    t.install(5, Handle::new(kind, 9, RIGHTS_DEFAULT)).unwrap();
    t
}

#[test]
fn exception_bind_outcomes() {
    let mut next_id = 1u64;
    let threads = table_with(ObjectType::Thread);
    assert_eq!(sys_task_bind_exception_port_impl(&mut next_id, &threads, 5, 3, 0, 0), 0);
    assert_eq!(next_id, 2);
    assert_eq!(sys_task_bind_exception_port_impl(&mut next_id, &threads, 5, 3, 0, 1), err_to_ret(RX_ERR_INVALID_ARGS));
    assert_eq!(sys_task_bind_exception_port_impl(&mut next_id, &threads, 5, 3, 0, 2), err_to_ret(RX_ERR_INVALID_ARGS));
    assert_eq!(sys_task_bind_exception_port_impl(&mut next_id, &threads, 6, 3, 0, 0), err_to_ret(RX_ERR_BAD_HANDLE));
    let vmos = table_with(ObjectType::Vmo);
    assert_eq!(sys_task_bind_exception_port_impl(&mut next_id, &vmos, 5, 3, 0, 0), err_to_ret(RX_ERR_WRONG_TYPE));
    let jobs = table_with(ObjectType::Job);
    assert_eq!(sys_task_bind_exception_port_impl(&mut next_id, &jobs, 5, 0, 0, 1), 0);
    assert_eq!(next_id, 2);
}

#[test]
fn exception_resume_outcomes() {
    let threads = table_with(ObjectType::Thread);
    assert_eq!(sys_task_resume_from_exception_impl(&threads, 5, 0, 1), 0);
    assert_eq!(sys_task_resume_from_exception_impl(&threads, 5, 0, 2), err_to_ret(RX_ERR_INVALID_ARGS));
    assert_eq!(sys_task_resume_from_exception_impl(&threads, 4, 0, 0), err_to_ret(RX_ERR_BAD_HANDLE));
    let procs = table_with(ObjectType::Process);
    assert_eq!(sys_task_resume_from_exception_impl(&procs, 5, 0, 0), err_to_ret(RX_ERR_WRONG_TYPE));
    assert_eq!(handle_exception(&ExceptionContext { regs: [0; 8] }), 0);
}

//! Exception ports: binding a port to a thread, process or job to receive
//! its exceptions, and resuming a thread after an exception.
use vstd::prelude::*;
use crate::status::{RX_ERR_BAD_HANDLE, RX_ERR_INVALID_ARGS, RX_ERR_WRONG_TYPE};
use crate::kobject::{HandleTable, ObjectType};
use crate::{SyscallRet, err_to_ret, ok_to_ret};

pub mod exception_port_options;
pub mod resume_options;

verus! {

/// Most exception ports the kernel is sized for.
pub const MAX_EXCEPTION_PORTS: usize = 128;

/// What an exception port is bound to.
#[derive(Clone, Copy, Debug, PartialEq, Eq, Structural)]
pub enum ExceptionPortType {
    Thread,
    Process,
    Job,
    JobDebugger,
    Debugger,
}

impl ExceptionPortType {
    /// The type's number.
    pub fn into_raw(self) -> (n: u32)
        ensures
            n == match self {
                ExceptionPortType::Thread => 0u32,
                ExceptionPortType::Process => 1u32,
                ExceptionPortType::Job => 2u32,
                ExceptionPortType::JobDebugger => 3u32,
                ExceptionPortType::Debugger => 4u32,
            },
    {
        match self {
            ExceptionPortType::Thread => 0,
            ExceptionPortType::Process => 1,
            ExceptionPortType::Job => 2,
            ExceptionPortType::JobDebugger => 3,
            ExceptionPortType::Debugger => 4,
        }
    }
}

/// An exception port: where exceptions of `target_handle` are reported
/// (port `port_handle`, with `key`), and whether it is bound.
#[derive(Clone, Copy, Debug, PartialEq, Eq, Structural)]
pub struct ExceptionPort {
    pub id: u64,
    pub port_type: ExceptionPortType,
    pub port_handle: u32,
    pub key: u64,
    pub target_handle: u32,
    pub bound: bool,
}

impl ExceptionPort {
    /// An unbound exception port with id `id`.
    pub fn new(id: u64, port_type: ExceptionPortType, port_handle: u32, key: u64, target_handle: u32) -> (p: ExceptionPort)
        ensures
            p == (ExceptionPort { id, port_type, port_handle, key, target_handle, bound: false }),
    {
        ExceptionPort { id, port_type, port_handle, key, target_handle, bound: false }
    }

    pub fn id(&self) -> (r: u64)
        ensures
            r == self.id,
    {
        self.id
    }

    pub fn port_type(&self) -> (r: ExceptionPortType)
        ensures
            r == self.port_type,
    {
        self.port_type
    }

    pub fn port_handle(&self) -> (r: u32)
        ensures
            r == self.port_handle,
    {
        self.port_handle
    }

    pub fn key(&self) -> (r: u64)
        ensures
            r == self.key,
    {
        self.key
    }

    pub fn target_handle(&self) -> (r: u32)
        ensures
            r == self.target_handle,
    {
        self.target_handle
    }

    pub fn is_bound(&self) -> (b: bool)
        ensures
            b == self.bound,
    {
        self.bound
    }

    pub fn bind(&mut self)
        ensures
            *final(self) == (ExceptionPort { bound: true, ..*old(self) }),
    {
        self.bound = true;
    }

    pub fn unbind(&mut self)
        ensures
            *final(self) == (ExceptionPort { bound: false, ..*old(self) }),
    {
        self.bound = false;
    }
}

/// The port type binding a port to an object of kind `t` gives (a debugger
/// binding on a job or process); none for other kinds, and for a debugger
/// binding on a thread.
pub open spec fn exception_port_type_for(t: ObjectType, debugger: bool) -> Option<ExceptionPortType> {
    match t {
        ObjectType::Job => Some(if debugger { ExceptionPortType::JobDebugger } else { ExceptionPortType::Job }),
        ObjectType::Process => Some(if debugger { ExceptionPortType::Debugger } else { ExceptionPortType::Process }),
        ObjectType::Thread => if debugger { None } else { Some(ExceptionPortType::Thread) },
        _ => None,
    }
}

/// Result of binding or unbinding on handle `obj_handle`: the handle must
/// exist; a debugger binding on a thread is invalid; objects other than
/// jobs, processes and threads have the wrong type.
pub open spec fn exception_binding_result(handles: HandleTable, obj_handle: u32, debugger: bool) -> SyscallRet {
    match handles.lookup(obj_handle) {
        None => -RX_ERR_BAD_HANDLE as isize,
        Some(h) => if h.obj_type == ObjectType::Thread && debugger {
            -RX_ERR_INVALID_ARGS as isize
        } else if h.obj_type != ObjectType::Job && h.obj_type != ObjectType::Process && h.obj_type != ObjectType::Thread {
            -RX_ERR_WRONG_TYPE as isize
        } else {
            0
        },
    }
}

/// Unbind the exception port of `obj_handle` (see
/// `exception_binding_result`).
fn object_unbind_exception_port(handles: &HandleTable, obj_handle: u32, debugger: bool) -> (r: SyscallRet)
    requires
        handles.wf(),
    ensures
        r == exception_binding_result(*handles, obj_handle, debugger),
{
    let handle = match handles.get(obj_handle) {
        Some(h) => h,
        None => {
            return err_to_ret(RX_ERR_BAD_HANDLE);
        },
    };
    match handle.obj_type {
        ObjectType::Job => ok_to_ret(0),
        ObjectType::Process => ok_to_ret(0),
        ObjectType::Thread => {
            if debugger {
                return err_to_ret(RX_ERR_INVALID_ARGS);
            }
            ok_to_ret(0)
        },
        _ => err_to_ret(RX_ERR_WRONG_TYPE),
    }
}

/// Bind port `port_handle` with `key` as the exception port of
/// `obj_handle` (see `exception_binding_result`); a new port takes id
/// `*next_id`, which then advances.
fn task_bind_exception_port_impl(next_id: &mut u64, handles: &HandleTable, obj_handle: u32, port_handle: u32, key: u64, debugger: bool) -> (r: SyscallRet)
    requires
        handles.wf(),
    ensures
        r == exception_binding_result(*handles, obj_handle, debugger),
        *final(next_id) == if r == 0 { old(next_id).wrapping_add(1) } else { *old(next_id) },
{
    let handle = match handles.get(obj_handle) {
        Some(h) => h,
        None => {
            return err_to_ret(RX_ERR_BAD_HANDLE);
        },
    };
    let port_type = match (handle.obj_type, debugger) {
        (ObjectType::Job, true) => ExceptionPortType::JobDebugger,
        (ObjectType::Job, false) => ExceptionPortType::Job,
        (ObjectType::Process, true) => ExceptionPortType::Debugger,
        (ObjectType::Process, false) => ExceptionPortType::Process,
        (ObjectType::Thread, false) => ExceptionPortType::Thread,
        (ObjectType::Thread, true) => {
            return err_to_ret(RX_ERR_INVALID_ARGS);
        },
        _ => {
            return err_to_ret(RX_ERR_WRONG_TYPE);
        },
    };
    let id = *next_id;
    *next_id = id.wrapping_add(1);
    let mut eport = ExceptionPort::new(id, port_type, port_handle, key, obj_handle);
    eport.bind();
    ok_to_ret(0)
}

/// Bind (non-zero `port`) or unbind (zero `port`) the exception port of
/// task `handle`; the only option is debugger.
pub fn sys_task_bind_exception_port_impl(next_id: &mut u64, handles: &HandleTable, handle: u32, port: u32, key: u64, options: u32) -> (r: SyscallRet)
    requires
        handles.wf(),
    ensures
        options & !exception_port_options::DEBUGGER != 0 ==> r == -RX_ERR_INVALID_ARGS && *final(next_id) == *old(next_id),
        options & !exception_port_options::DEBUGGER == 0 ==> ({
            let debugger = options & exception_port_options::DEBUGGER != 0;
            &&& r == exception_binding_result(*handles, handle, debugger)
            &&& *final(next_id) == if r == 0 && port != 0 { old(next_id).wrapping_add(1) } else { *old(next_id) }
        }),
{
    if options & !exception_port_options::DEBUGGER != 0 {
        return err_to_ret(RX_ERR_INVALID_ARGS);
    }
    let debugger = (options & exception_port_options::DEBUGGER) != 0;
    if port == 0 {
        object_unbind_exception_port(handles, handle, debugger)
    } else {
        task_bind_exception_port_impl(next_id, handles, handle, port, key, debugger)
    }
}

/// Resume thread `handle` from an exception (options: none or try-next);
/// the handle must name a thread.
pub fn sys_task_resume_from_exception_impl(handles: &HandleTable, handle: u32, port: u32, options: u32) -> (r: SyscallRet)
    requires
        handles.wf(),
    ensures
        r == if options != resume_options::NONE && options != resume_options::TRY_NEXT {
            -RX_ERR_INVALID_ARGS as isize
        } else {
            match handles.lookup(handle) {
                None => -RX_ERR_BAD_HANDLE as isize,
                Some(h) => if h.obj_type != ObjectType::Thread { -RX_ERR_WRONG_TYPE as isize } else { 0 },
            }
        },
{
    if options != resume_options::NONE && options != resume_options::TRY_NEXT {
        return err_to_ret(RX_ERR_INVALID_ARGS);
    }
    let thread_handle = match handles.get(handle) {
        Some(h) => h,
        None => {
            return err_to_ret(RX_ERR_BAD_HANDLE);
        },
    };
    if thread_handle.obj_type != ObjectType::Thread {
        return err_to_ret(RX_ERR_WRONG_TYPE);
    }
    ok_to_ret(0)
}

/// Exception port statistics.
#[derive(Clone, Copy, Debug)]
pub struct ExceptionStats {
    pub total_exception_ports: usize,
    pub total_binds: u64,
    pub total_unbinds: u64,
    pub total_resumes: u64,
}

/// Current exception statistics (none are tracked).
pub fn get_stats() -> (st: ExceptionStats)
    ensures
        st.total_exception_ports == 0,
        st.total_binds == 0,
        st.total_unbinds == 0,
        st.total_resumes == 0,
{
    ExceptionStats { total_exception_ports: 0, total_binds: 0, total_unbinds: 0, total_resumes: 0 }
}

/// Initialize the exception syscall subsystem (nothing to set up).
pub fn init() {
}

} // verus!

//! Topics of object information queries.
use vstd::prelude::*;

verus! {

pub const HANDLE_VALID: u32 = 0x00;
pub const HANDLE_BASIC: u32 = 0x01;
pub const PROCESS: u32 = 0x02;
pub const PROCESS_THREADS: u32 = 0x03;
pub const JOB_CHILDREN: u32 = 0x04;
pub const JOB_PROCESSES: u32 = 0x05;
pub const THREAD: u32 = 0x06;
pub const THREAD_EXCEPTION_REPORT: u32 = 0x07;
pub const THREAD_STATS: u32 = 0x08;
pub const TASK_STATS: u32 = 0x09;
pub const PROCESS_MAPS: u32 = 0x0A;
pub const PROCESS_VMOS: u32 = 0x0B;
pub const VMO: u32 = 0x0C;
pub const VMAR: u32 = 0x0D;
pub const CPU_STATS: u32 = 0x0E;
pub const KMEM_STATS: u32 = 0x0F;
pub const RESOURCE: u32 = 0x10;
pub const HANDLE_COUNT: u32 = 0x11;
pub const PROCESS_HANDLE_STATS: u32 = 0x12;
pub const SOCKET: u32 = 0x13;

} // verus!

//! Object properties that can be read or written.
use vstd::prelude::*;

verus! {

pub const NAME: u32 = 0x00;
pub const PROCESS_DEBUG_ADDR: u32 = 0x01;
pub const PROCESS_VDSO_BASE_ADDRESS: u32 = 0x02;
pub const SOCKET_RX_THRESHOLD: u32 = 0x03;
pub const SOCKET_TX_THRESHOLD: u32 = 0x04;
pub const JOB_KILL_ON_OOM: u32 = 0x05;

} // verus!

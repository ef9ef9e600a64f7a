//! Options of the multi-object wait.
use vstd::prelude::*;

verus! {

pub const WAIT_ANY: u32 = 0x00;
pub const WAIT_ALL: u32 = 0x01;
pub const SIGNAL_EDGE: u32 = 0x02;

} // verus!

//! Options of exception port binding.
use vstd::prelude::*;

verus! {

pub const NONE: u32 = 0;
pub const DEBUGGER: u32 = 0x01;

} // verus!

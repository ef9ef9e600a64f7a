//! Kernel trace control actions.
use vstd::prelude::*;

verus! {

pub const NEW_PROBE: u32 = 0;
pub const START: u32 = 1;
pub const STOP: u32 = 2;
pub const RESET: u32 = 3;

} // verus!

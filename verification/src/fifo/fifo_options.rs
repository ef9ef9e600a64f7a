//! Options of FIFO creation.
use vstd::prelude::*;

verus! {

/// No option.
pub const NONE: u32 = 0x00;

} // verus!

//! SMC function call types.
use vstd::prelude::*;

verus! {

/// Standard (yielding) call.
pub const STANDARD: u32 = 0x0;
/// Fast (atomic) call.
pub const FAST: u32 = 0x1;
/// Bits of the function id that hold the call type.
pub const MASK: u32 = 0x1;

} // verus!

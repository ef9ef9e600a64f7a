//! SMC calling conventions.
use vstd::prelude::*;

verus! {

/// SMC32: 32-bit values.
pub const SMC32: u32 = 0x0 << 30;
/// SMC64: 64-bit values.
pub const SMC64: u32 = 0x1 << 30;
/// Bits of the function id that hold the convention.
pub const MASK: u32 = 0x3 << 30;

} // verus!

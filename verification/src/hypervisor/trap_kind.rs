//! Kinds of guest trap.
use vstd::prelude::*;

verus! {

/// Memory-mapped I/O.
pub const MMIO: u32 = 1;
/// Port I/O.
pub const IO: u32 = 2;
/// Write protection.
pub const WRITE: u32 = 3;

} // verus!

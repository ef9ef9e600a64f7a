//! Options of debug log creation.
use vstd::prelude::*;

verus! {

/// A write-only log.
pub const NONE: u32 = 0;

/// A log that can also be read.
pub const READABLE: u32 = 0x01;

} // verus!

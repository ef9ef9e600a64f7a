//! Options of socket shutdown.
use vstd::prelude::*;

verus! {

/// Stop reading.
pub const READ: u32 = 0x01;

/// Stop writing.
pub const WRITE: u32 = 0x02;

/// Stop both.
pub const READ_WRITE: u32 = 0x03;

/// Every valid option bit.
pub const MASK: u32 = 0x03;

} // verus!

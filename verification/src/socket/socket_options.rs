//! Options of socket creation, reads and writes.
use vstd::prelude::*;

verus! {

/// Plain data.
pub const NONE: u32 = 0x00;

/// The control plane.
pub const CONTROL: u32 = 0x01;

} // verus!

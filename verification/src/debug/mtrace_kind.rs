//! Kinds of memory tracing.
use vstd::prelude::*;

verus! {

pub const HARDWARE: u32 = 0;
pub const CPU: u32 = 1;
pub const MEMORY: u32 = 2;

} // verus!

//! Options of resuming from an exception.
use vstd::prelude::*;

verus! {

pub const NONE: u32 = 0;
pub const TRY_NEXT: u32 = 0x01;

} // verus!

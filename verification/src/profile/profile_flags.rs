//! Flags of a scheduling profile.
use vstd::prelude::*;

verus! {

pub const NONE: u32 = 0;
pub const HAS_CPU_AFFINITY: u32 = 0x01;
pub const HAS_PRIORITY: u32 = 0x02;
pub const REALTIME: u32 = 0x04;

} // verus!

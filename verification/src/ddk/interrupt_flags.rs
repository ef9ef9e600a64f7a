//! Options of an interrupt object.
use vstd::prelude::*;

verus! {

pub const VIRTUAL: u32 = 0x01;
pub const REMAPPED: u32 = 0x02;

} // verus!

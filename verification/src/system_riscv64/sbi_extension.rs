//! SBI extension ids.
use vstd::prelude::*;

verus! {

pub const BASE: u32 = 0x10;
pub const TIME: u32 = 0x54494D45;
pub const IPI: u32 = 0x735049;
pub const RFENCE: u32 = 0x52464E43;
pub const HSM: u32 = 0x48534D;
pub const SRST: u32 = 0x53525354;
pub const PMU: u32 = 0x504D55;

} // verus!

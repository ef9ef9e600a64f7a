//! Kinds of resources.
use vstd::prelude::*;

verus! {

pub const ROOT: u32 = 0;
pub const IRQ: u32 = 1;
pub const MMIO: u32 = 2;
pub const SYSTEM: u32 = 3;
pub const HYPERVISOR: u32 = 4;
/// Number of kinds; every kind is below it.
pub const COUNT: u32 = 5;

} // verus!

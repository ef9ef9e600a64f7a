//! Kinds of PCI base address registers.
use vstd::prelude::*;

verus! {

pub const MMIO: u32 = 0;
pub const PIO: u32 = 1;

} // verus!

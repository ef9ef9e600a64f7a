//! PCI interrupt modes.
use vstd::prelude::*;

verus! {

pub const LEGACY: u32 = 0;
pub const MSI: u32 = 1;
pub const MSI_X: u32 = 2;

} // verus!

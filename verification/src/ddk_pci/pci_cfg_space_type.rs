//! PCI configuration space access methods.
use vstd::prelude::*;

verus! {

pub const MMIO: u32 = 0;
pub const PIO: u32 = 1;
/// DesignWare root bridge (memory mapped).
pub const DW_ROOT: u32 = 2;
/// DesignWare downstream (memory mapped).
pub const DW_DS: u32 = 3;

} // verus!

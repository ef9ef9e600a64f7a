//! Functions of the SBI system reset extension.
use vstd::prelude::*;

verus! {

pub const SYSTEM_RESET: u32 = 0;

} // verus!

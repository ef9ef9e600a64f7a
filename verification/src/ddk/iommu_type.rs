//! Kinds of IOMMU.
use vstd::prelude::*;

verus! {

/// Intel VT-d.
pub const INTEL: u32 = 1;
pub const ARM_SMMU: u32 = 2;
pub const BROADCOM: u32 = 3;

} // verus!

//! Functions of the SBI base extension.
use vstd::prelude::*;

verus! {

pub const GET_SBI_VERSION: u32 = 0;
pub const GET_IMPL_ID: u32 = 1;
pub const GET_IMPL_VERSION: u32 = 2;
pub const PROBE_EXTENSION: u32 = 3;
pub const GET_MVENDORID: u32 = 4;
pub const GET_MARCHID: u32 = 5;
pub const GET_MIMPL_VERSION: u32 = 6;

} // verus!

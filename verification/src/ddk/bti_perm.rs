//! Permissions of a bus transaction initiator pin.
use vstd::prelude::*;

verus! {

pub const READ: u32 = 0x01;
pub const WRITE: u32 = 0x02;
pub const EXECUTE: u32 = 0x04;
pub const COMPRESS: u32 = 0x08;
pub const CONTIGUOUS: u32 = 0x10;

} // verus!

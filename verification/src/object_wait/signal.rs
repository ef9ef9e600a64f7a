//! Signal bits an object can assert.
use vstd::prelude::*;

verus! {

pub const HANDLE_CLOSED: u64 = 0x00800000;
pub const USER_0: u64 = 0x01000000;
pub const USER_1: u64 = 0x02000000;
pub const USER_2: u64 = 0x04000000;
pub const USER_3: u64 = 0x08000000;
pub const USER_ALL: u64 = 0xFF000000;

} // verus!

//! Status codes returned by kernel operations.
use vstd::prelude::*;

verus! {

/// A kernel status code; errors are positive and returned to user space
/// negated.
pub type Status = i32;

pub const RX_OK: Status = 0;
pub const RX_ERR_INTERNAL: Status = 1;
pub const RX_ERR_NOT_SUPPORTED: Status = 2;
pub const RX_ERR_NO_RESOURCES: Status = 3;
pub const RX_ERR_NO_MEMORY: Status = 4;
pub const RX_ERR_INVALID_ARGS: Status = 10;
pub const RX_ERR_BAD_HANDLE: Status = 11;
pub const RX_ERR_WRONG_TYPE: Status = 12;
pub const RX_ERR_BAD_SYSCALL: Status = 13;
pub const RX_ERR_OUT_OF_RANGE: Status = 14;
pub const RX_ERR_BUFFER_TOO_SMALL: Status = 15;
pub const RX_ERR_BAD_STATE: Status = 20;
pub const RX_ERR_TIMED_OUT: Status = 21;
pub const RX_ERR_SHOULD_WAIT: Status = 22;
pub const RX_ERR_CANCELED: Status = 23;
pub const RX_ERR_PEER_CLOSED: Status = 24;
pub const RX_ERR_NOT_FOUND: Status = 25;
pub const RX_ERR_ALREADY_EXISTS: Status = 26;
pub const RX_ERR_ACCESS_DENIED: Status = 30;

} // verus!

//! Clocks a clock read can name.
use vstd::prelude::*;

verus! {

/// Time since boot.
pub const MONOTONIC: u32 = 0;

/// Wall-clock time: monotonic time plus the UTC offset.
pub const UTC: u32 = 1;

/// Time the calling thread has run.
pub const THREAD: u32 = 2;

} // verus!

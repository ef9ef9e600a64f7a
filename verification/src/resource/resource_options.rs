//! Resource creation options: a kind in the low byte, flags above it.
use vstd::prelude::*;

verus! {

pub const EXTRACT_KIND_MASK: u32 = 0xFF;
pub const EXTRACT_FLAGS_MASK: u32 = 0xFFFFFF00;
pub const FLAGS_MASK: u32 = 0xFFFFFF00;

/// The kind encoded in `options`.
pub fn extract_kind(options: u32) -> (k: u32)
    ensures
        k == options & EXTRACT_KIND_MASK,
{
    options & EXTRACT_KIND_MASK
}

/// The flags encoded in `options`.
pub fn extract_flags(options: u32) -> (f: u32)
    ensures
        f == options & EXTRACT_FLAGS_MASK,
{
    options & EXTRACT_FLAGS_MASK
}

} // verus!

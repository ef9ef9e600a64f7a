//! Architecture exception entry.
use vstd::prelude::*;

verus! {

/// Registers saved when an exception is taken.
#[derive(Clone, Copy, Debug)]
pub struct ExceptionContext {
    pub regs: [u64; 8],
}

/// Handle an exception: every exception is reported as handled (0).
pub fn handle_exception(ctx: &ExceptionContext) -> (r: i32)
    ensures
        r == 0,
{
    0
}

} // verus!

//! Kinds of virtual CPU state.
use vstd::prelude::*;

verus! {

pub const X86_REGS: u32 = 1;
pub const X86_FPREGS: u32 = 2;
pub const ARM_REGS: u32 = 1;
pub const ARM_FPREGS: u32 = 2;

} // verus!

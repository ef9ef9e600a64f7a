//! Option bits accepted by the VMAR syscalls, and the conversions between
//! permission bits and memory protections.
use vstd::prelude::*;
use crate::vmar::MemProt;

verus! {

pub const PERM_READ: u32 = 0x01;
pub const PERM_WRITE: u32 = 0x02;
pub const PERM_EXECUTE: u32 = 0x04;
pub const CAN_MAP_READ: u32 = 0x08;
pub const CAN_MAP_WRITE: u32 = 0x10;
pub const CAN_MAP_EXECUTE: u32 = 0x20;
pub const SPECIFIC: u32 = 0x100;
pub const SPECIFIC_OVERWRITE: u32 = 0x200;
pub const MAP_RANGE: u32 = 0x400;
pub const REQUIRE_NON_RESIZABLE: u32 = 0x800;
pub const ALLOW_NON_RESIZABLE: u32 = 0x1000;
pub const PERM_FLAGS: u32 = 0x07;
pub const CAN_MAP_FLAGS: u32 = 0x38;

/// Protection granting exactly the access rights whose permission bits are
/// set in `perm`.
pub fn perm_to_prot(perm: u32) -> (prot: MemProt)
    ensures
        prot.can_read_spec() == (perm & PERM_READ != 0),
        prot.can_write_spec() == (perm & PERM_WRITE != 0),
        prot.can_execute_spec() == (perm & PERM_EXECUTE != 0),
{
    let mut prot = MemProt::none();
    if perm & PERM_READ != 0 {
        prot = prot.union(MemProt::read());
    }
    if perm & PERM_WRITE != 0 {
        prot = prot.union(MemProt::write());
    }
    if perm & PERM_EXECUTE != 0 {
        prot = prot.union(MemProt::execute());
    }
    prot
}

/// Permission bits for exactly the access rights `prot` grants.
pub fn prot_to_perm(prot: MemProt) -> (perm: u32)
    ensures
        perm == (if prot.can_read_spec() { PERM_READ } else { 0u32 }) | (if prot.can_write_spec() {
            PERM_WRITE
        } else {
            0u32
        }) | (if prot.can_execute_spec() { PERM_EXECUTE } else { 0u32 }),
        (perm & PERM_READ != 0) == prot.can_read_spec(),
        (perm & PERM_WRITE != 0) == prot.can_write_spec(),
        (perm & PERM_EXECUTE != 0) == prot.can_execute_spec(),
        perm & !PERM_FLAGS == 0,
{
    let r: u32 = if prot.can_read() { PERM_READ } else { 0 };
    let w: u32 = if prot.can_write() { PERM_WRITE } else { 0 };
    let x: u32 = if prot.can_execute() { PERM_EXECUTE } else { 0 };
    let perm = r | w | x;
    proof {
        assert(((r | w | x) & 1 != 0) == (r == 1) && ((r | w | x) & 2 != 0) == (w == 2) && ((r | w
            | x) & 4 != 0) == (x == 4) && (r | w | x) & !7u32 == 0) by (bit_vector)
            requires
                r == 0 || r == 1,
                w == 0 || w == 2,
                x == 0 || x == 4,
        ;
    }
    perm
}

} // verus!

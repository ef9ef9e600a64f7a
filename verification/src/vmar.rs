//! Virtual Memory Address Regions.
//!
//! A VMAR is a range of an address space holding, by offset, child VMARs
//! and mappings of VMOs.  Its children are kept sorted by offset.
use vstd::prelude::*;
use crate::status::{
    Status, RX_ERR_ACCESS_DENIED, RX_ERR_ALREADY_EXISTS, RX_ERR_BAD_STATE, RX_ERR_INVALID_ARGS,
    RX_ERR_NOT_FOUND, RX_ERR_NOT_SUPPORTED, RX_ERR_NO_RESOURCES, RX_ERR_WRONG_TYPE,
};
use crate::registry::{SlotTable, ids_table, lemma_slot_of_ids, slot_of, lemma_slot_of, lemma_lookup_update, home_slot, insert_post, insert_pos, free_pattern, lemma_insert_pos_in, lemma_insert_pos_free, lemma_insert_pos_home, lemma_insert_pos_some, lemma_slot_of_only, holds};
use crate::usercopy::{UserMemory, le_bytes, stored_le};
use crate::vmo::{VmoSubsystem, vmo_for_handle};
use crate::kobject::{HandleTable, RIGHTS_READ};
use crate::{SyscallRet, err_to_ret, ok_to_ret};

pub mod vmar_options;

verus! {

/// Size of a page.
pub const PAGE_SIZE: u64 = 4096;

/// Memory protection: which accesses a mapping allows.
#[derive(Clone, Copy, Debug, PartialEq, Eq, Structural)]
pub struct MemProt {
    pub read: bool,
    pub write: bool,
    pub execute: bool,
}

impl MemProt {
    pub open spec fn can_read_spec(&self) -> bool {
        self.read
    }

    pub open spec fn can_write_spec(&self) -> bool {
        self.write
    }

    pub open spec fn can_execute_spec(&self) -> bool {
        self.execute
    }

    /// No access.
    pub fn none() -> (p: MemProt)
        ensures
            !p.read && !p.write && !p.execute,
    {
        MemProt { read: false, write: false, execute: false }
    }

    /// Read access only.
    pub fn read() -> (p: MemProt)
        ensures
            p.read && !p.write && !p.execute,
    {
        MemProt { read: true, write: false, execute: false }
    }

    /// Write access only.
    pub fn write() -> (p: MemProt)
        ensures
            !p.read && p.write && !p.execute,
    {
        MemProt { read: false, write: true, execute: false }
    }

    /// Execute access only.
    pub fn execute() -> (p: MemProt)
        ensures
            !p.read && !p.write && p.execute,
    {
        MemProt { read: false, write: false, execute: true }
    }

    /// Every access either protection allows.
    pub fn union(self, other: MemProt) -> (p: MemProt)
        ensures
            p.read == (self.read || other.read),
            p.write == (self.write || other.write),
            p.execute == (self.execute || other.execute),
    {
        MemProt { read: self.read || other.read, write: self.write || other.write, execute: self.execute || other.execute }
    }

    pub fn can_read(&self) -> (b: bool)
        ensures
            b == self.read,
    {
        self.read
    }

    pub fn can_write(&self) -> (b: bool)
        ensures
            b == self.write,
    {
        self.write
    }

    pub fn can_execute(&self) -> (b: bool)
        ensures
            b == self.execute,
    {
        self.execute
    }
}

/// Identifier of a VMAR; 0 is never a valid id.
pub type VmarId = u64;

pub const VMAR_ID_INVALID: VmarId = 0;

/// A child of a VMAR: a sub-VMAR, or a mapping of part of a VMO.
#[derive(Clone, Copy, Debug, PartialEq, Eq, Structural)]
pub enum VmarRegion {
    Vmar { id: VmarId, base: u64, size: u64 },
    Mapping { vmo_id: u64, vmo_offset: u64, size: u64, prot: MemProt },
}

/// Size of a region.
pub open spec fn region_size(r: VmarRegion) -> u64 {
    match r {
        VmarRegion::Vmar { size, .. } => size,
        VmarRegion::Mapping { size, .. } => size,
    }
}

/// End of the region at key `base`.
pub open spec fn region_end(e: (u64, VmarRegion)) -> int {
    e.0 + region_size(e.1)
}

impl VmarRegion {
    /// Base of a sub-VMAR; mappings report 0.
    pub fn base(&self) -> (b: u64)
        ensures
            b == match *self {
                VmarRegion::Vmar { base, .. } => base,
                VmarRegion::Mapping { .. } => 0,
            },
    {
        match self {
            VmarRegion::Vmar { base, .. } => *base,
            VmarRegion::Mapping { .. } => 0,
        }
    }

    /// Size of the region.
    pub fn size(&self) -> (s: u64)
        ensures
            s == region_size(*self),
    {
        match self {
            VmarRegion::Vmar { size, .. } => *size,
            VmarRegion::Mapping { size, .. } => *size,
        }
    }
}

/// What may be mapped into a VMAR, and its lifecycle state.
#[derive(Clone, Copy, Debug, PartialEq, Eq, Structural)]
pub struct VmarFlags {
    pub can_map_read: bool,
    pub can_map_write: bool,
    pub can_map_execute: bool,
    pub is_root: bool,
    pub destroyed: bool,
}

/// Whether flags `f` allow mapping with permission bits `perm`.
pub open spec fn can_map_spec(f: VmarFlags, perm: u32) -> bool {
    &&& (perm & vmar_options::PERM_READ != 0 ==> f.can_map_read)
    &&& (perm & vmar_options::PERM_WRITE != 0 ==> f.can_map_write)
    &&& (perm & vmar_options::PERM_EXECUTE != 0 ==> f.can_map_execute)
}

impl VmarFlags {
    /// Nothing mappable, not a root, not destroyed.
    pub fn new() -> (f: VmarFlags)
        ensures
            !f.can_map_read && !f.can_map_write && !f.can_map_execute && !f.is_root && !f.destroyed,
    {
        VmarFlags { can_map_read: false, can_map_write: false, can_map_execute: false, is_root: false, destroyed: false }
    }

    /// Mapping rights taken from the `CAN_MAP_*` bits of `options`.
    pub fn from_options(options: u32, is_root: bool) -> (f: VmarFlags)
        ensures
            f.can_map_read == (options & vmar_options::CAN_MAP_READ != 0),
            f.can_map_write == (options & vmar_options::CAN_MAP_WRITE != 0),
            f.can_map_execute == (options & vmar_options::CAN_MAP_EXECUTE != 0),
            f.is_root == is_root,
            !f.destroyed,
    {
        VmarFlags {
            can_map_read: (options & vmar_options::CAN_MAP_READ) != 0,
            can_map_write: (options & vmar_options::CAN_MAP_WRITE) != 0,
            can_map_execute: (options & vmar_options::CAN_MAP_EXECUTE) != 0,
            is_root,
            destroyed: false,
        }
    }

    /// Whether every access in `perm` may be mapped.
    pub fn can_map(&self, perm: u32) -> (b: bool)
        ensures
            b == can_map_spec(*self, perm),
    {
        if (perm & vmar_options::PERM_READ) != 0 && !self.can_map_read {
            return false;
        }
        if (perm & vmar_options::PERM_WRITE) != 0 && !self.can_map_write {
            return false;
        }
        if (perm & vmar_options::PERM_EXECUTE) != 0 && !self.can_map_execute {
            return false;
        }
        true
    }
}

/// `x` rounded up to the alignment `a` (a power of two) by masking.
pub open spec fn align_up(x: u64, a: u64) -> u64 {
    ((x + a - 1) as u64) & !((a - 1) as u64)
}

/// First gap found by scanning the children from index `i`, where the
/// previous child ended at `prev_end`: the aligned start of the gap before
/// child `i` when `size` bytes fit there, else the result for the next
/// child; after the last child the space up to `total` is tried.
pub open spec fn free_region_from(
    ch: Seq<(u64, VmarRegion)>,
    i: int,
    prev_end: u64,
    size: u64,
    a: u64,
    total: u64,
) -> Option<u64>
    decreases ch.len() - i,
{
    if i >= ch.len() {
        if align_up(prev_end, a) + size <= total {
            Some(align_up(prev_end, a))
        } else {
            None
        }
    } else if align_up(prev_end, a) + size <= ch[i].0 {
        Some(align_up(prev_end, a))
    } else {
        free_region_from(ch, i + 1, region_end(ch[i]) as u64, size, a, total)
    }
}

/// Whether the scan for a free region of `size` bytes at alignment `a`
/// stays within 64-bit arithmetic.
pub open spec fn free_search_ok(ch: Seq<(u64, VmarRegion)>, size: u64, a: u64) -> bool {
    &&& a >= 1
    &&& a + size <= u64::MAX
    &&& forall|i: int| 0 <= i < ch.len() ==> region_end(#[trigger] ch[i]) + a + size <= u64::MAX
}

/// Whether the search for a free region of `size` bytes at alignment `a`
/// among children `ch` stays within 64-bit arithmetic (see
/// `free_search_ok`).
pub fn free_search_fits(ch: &Vec<(u64, VmarRegion)>, size: u64, a: u64) -> (b: bool)
    requires
        children_wf(ch@),
    ensures
        b == free_search_ok(ch@, size, a),
{
    if a < 1 || a > u64::MAX - size {
        return false;
    }
    let limit = u64::MAX - size - a;
    let mut i: usize = 0;
    while i < ch.len()
        invariant
            i <= ch@.len(),
            children_wf(ch@),
            a >= 1,
            a + size <= u64::MAX,
            limit == u64::MAX - size - a,
            forall|k: int| 0 <= k < i ==> region_end(#[trigger] ch@[k]) + a + size <= u64::MAX,
        decreases ch@.len() - i,
    {
        let e = ch[i];
        proof {
            assert(region_end(ch@[i as int]) <= u64::MAX);
        }
        let end = e.0 + e.1.size();
        if end > limit {
            return false;
        }
        i = i + 1;
    }
    true
}

/// Whether the region `e` overlaps `[start, end)`.
pub open spec fn overlaps(e: (u64, VmarRegion), start: int, end: int) -> bool {
    start < region_end(e) && end > e.0
}

/// The children kept by an unmap of `[start, end)`: all but those that begin
/// before `end` and end after `start`.
pub open spec fn unmapped(ch: Seq<(u64, VmarRegion)>, start: int, end: int) -> Seq<(u64, VmarRegion)>
    decreases ch.len(),
{
    if ch.len() == 0 {
        ch
    } else {
        let rest = unmapped(ch.drop_last(), start, end);
        if overlaps(ch.last(), start, end) {
            rest
        } else {
            rest.push(ch.last())
        }
    }
}

/// Number of leading children whose offset is below `key`.
pub open spec fn lower_bound(ch: Seq<(u64, VmarRegion)>, key: u64, i: int) -> int
    decreases ch.len() - i,
{
    if i >= ch.len() || ch[i].0 >= key {
        i
    } else {
        lower_bound(ch, key, i + 1)
    }
}

/// The children after `r` is stored at `key`: replacing the child at that
/// offset, or inserted in offset order.
pub open spec fn upsert(ch: Seq<(u64, VmarRegion)>, key: u64, r: VmarRegion) -> Seq<(u64, VmarRegion)> {
    let p = lower_bound(ch, key, 0);
    if p < ch.len() && ch[p].0 == key {
        ch.update(p, (key, r))
    } else {
        ch.insert(p, (key, r))
    }
}

/// Children sorted by strictly increasing offset, none reaching past the
/// end of 64-bit space.
pub open spec fn children_wf(ch: Seq<(u64, VmarRegion)>) -> bool {
    &&& forall|i: int, j: int| 0 <= i < j < ch.len() ==> (#[trigger] ch[i]).0 < (#[trigger] ch[j]).0
    &&& forall|i: int| 0 <= i < ch.len() ==> region_end(#[trigger] ch[i]) <= u64::MAX
}

/// A VMAR.
pub struct Vmar {
    pub id: VmarId,
    pub base: u64,
    pub size: u64,
    pub parent: Option<VmarId>,
    pub children: Vec<(u64, VmarRegion)>,
    pub flags: VmarFlags,
    pub align_mask: u64,
    pub ref_count: u64,
}

/// `x & y` never exceeds `x`.
proof fn lemma_and_le(x: u64, y: u64)
    ensures
        x & y <= x,
{
    assert(x & y <= x) by (bit_vector);
}

impl Vmar {
    pub open spec fn wf(&self) -> bool {
        children_wf(self.children@)
    }

    /// A root VMAR covering `[base, base + size)`, allowing every access.
    pub fn new_root(id: VmarId, base: u64, size: u64) -> (v: Vmar)
        ensures
            v.wf(),
            v.id == id,
            v.base == base,
            v.size == size,
            v.parent is None,
            v.children@.len() == 0,
            v.flags == (VmarFlags {
                can_map_read: true,
                can_map_write: true,
                can_map_execute: true,
                is_root: true,
                destroyed: false,
            }),
            v.align_mask == 0,
            v.ref_count == 1,
    {
        Vmar {
            id,
            base,
            size,
            parent: None,
            children: Vec::new(),
            flags: VmarFlags {
                can_map_read: true,
                can_map_write: true,
                can_map_execute: true,
                is_root: true,
                destroyed: false,
            },
            align_mask: 0,
            ref_count: 1,
        }
    }

    pub fn id(&self) -> (r: VmarId)
        ensures
            r == self.id,
    {
        self.id
    }

    pub fn is_destroyed(&self) -> (b: bool)
        ensures
            b == self.flags.destroyed,
    {
        self.flags.destroyed
    }

    /// Destroy this VMAR and all its children: a root VMAR is refused and
    /// left alone; any other is marked destroyed and loses every child, so
    /// later mapping, unmapping and protection changes fail with
    /// `RX_ERR_BAD_STATE`.
    pub fn destroy(&mut self) -> (r: Result<(), Status>)
        requires
            old(self).wf(),
        ensures
            final(self).wf(),
            old(self).flags.is_root ==> r == Err::<(), Status>(RX_ERR_ACCESS_DENIED) && *final(self) == *old(self),
            !old(self).flags.is_root ==> {
                &&& r == Ok::<(), Status>(())
                &&& final(self).flags == (VmarFlags { destroyed: true, ..old(self).flags })
                &&& final(self).children@ == Seq::<(u64, VmarRegion)>::empty()
                &&& final(self).id == old(self).id && final(self).base == old(self).base
                &&& final(self).size == old(self).size && final(self).parent == old(self).parent
                &&& final(self).align_mask == old(self).align_mask && final(self).ref_count == old(self).ref_count
            },
    {
        if self.flags.is_root {
            return Err(RX_ERR_ACCESS_DENIED);
        }
        self.flags.destroyed = true;
        self.children = Vec::new();
        Ok(())
    }

    /// Offset of the first gap between children (or after the last one)
    /// where `size` bytes fit once aligned to `alignment`.
    pub fn find_free_region(&self, size: u64, alignment: u64) -> (r: Option<u64>)
        requires
            self.wf(),
            free_search_ok(self.children@, size, alignment),
        ensures
            r == free_region_from(self.children@, 0, 0, size, alignment, self.size),
    {
        let mut prev_end: u64 = 0;
        let mut i: usize = 0;
        while i < self.children.len()
            invariant
                self.wf(),
                free_search_ok(self.children@, size, alignment),
                i <= self.children@.len(),
                i == 0 ==> prev_end == 0,
                i > 0 ==> prev_end == region_end(self.children@[i - 1]),
                free_region_from(self.children@, 0, 0, size, alignment, self.size)
                    == free_region_from(self.children@, i as int, prev_end, size, alignment, self.size),
            decreases self.children@.len() - i,
        {
            let base = self.children[i].0;
            let child_size = self.children[i].1.size();
            let child_end = base + child_size;
            proof {
                if i > 0 {
                    assert(region_end(self.children@[i - 1]) + alignment + size <= u64::MAX);
                }
                lemma_and_le((prev_end + alignment - 1) as u64, !((alignment - 1) as u64));
            }
            let aligned_start = (prev_end + alignment - 1) & !(alignment - 1);
            if aligned_start + size <= base {
                return Some(aligned_start);
            }
            prev_end = child_end;
            i = i + 1;
        }
        proof {
            if i > 0 {
                assert(region_end(self.children@[i - 1]) + alignment + size <= u64::MAX);
            }
            lemma_and_le((prev_end + alignment - 1) as u64, !((alignment - 1) as u64));
        }
        let aligned_start = (prev_end + alignment - 1) & !(alignment - 1);
        if aligned_start + size <= self.size {
            Some(aligned_start)
        } else {
            None
        }
    }

    /// Fail with `RX_ERR_ALREADY_EXISTS` when `[offset, offset + size)`
    /// overlaps a child.
    pub fn check_overlap(&self, offset: u64, size: u64) -> (r: Result<(), Status>)
        requires
            self.wf(),
            offset + size <= u64::MAX,
        ensures
            r is Ok <==> forall|i: int| 0 <= i < self.children@.len() ==> !overlaps(#[trigger] self.children@[i], offset as int, offset + size),
            r is Err ==> r == Err::<(), Status>(RX_ERR_ALREADY_EXISTS),
    {
        let end = offset + size;
        let mut i: usize = 0;
        while i < self.children.len()
            invariant
                self.wf(),
                end == offset + size,
                i <= self.children@.len(),
                forall|k: int| 0 <= k < i ==> !overlaps(#[trigger] self.children@[k], offset as int, end as int),
            decreases self.children@.len() - i,
        {
            let base = self.children[i].0;
            let child_end = base + self.children[i].1.size();
            if offset < child_end && end > base {
                return Err(RX_ERR_ALREADY_EXISTS);
            }
            i = i + 1;
        }
        Ok(())
    }

    /// Position of the child at offset `key`, if any.
    pub fn find_key(&self, key: u64) -> (r: Option<usize>)
        requires
            self.wf(),
        ensures
            r matches Some(i) ==> i < self.children@.len() && self.children@[i as int].0 == key,
            r is None ==> forall|i: int| 0 <= i < self.children@.len() ==> (#[trigger] self.children@[i]).0 != key,
    {
        let mut i: usize = 0;
        while i < self.children.len()
            invariant
                i <= self.children@.len(),
                forall|k: int| 0 <= k < i ==> (#[trigger] self.children@[k]).0 != key,
            decreases self.children@.len() - i,
        {
            if self.children[i].0 == key {
                return Some(i);
            }
            i = i + 1;
        }
        None
    }

    /// Store region `r` at offset `key`, replacing a child at that offset or
    /// inserting in offset order.
    pub fn upsert_child(&mut self, key: u64, r: VmarRegion)
        requires
            old(self).wf(),
            key + region_size(r) <= u64::MAX,
        ensures
            final(self).wf(),
            final(self).children@ == upsert(old(self).children@, key, r),
            final(self).id == old(self).id,
            final(self).base == old(self).base,
            final(self).size == old(self).size,
            final(self).parent == old(self).parent,
            final(self).flags == old(self).flags,
            final(self).align_mask == old(self).align_mask,
            final(self).ref_count == old(self).ref_count,
    {
        let mut p: usize = 0;
        while p < self.children.len() && self.children[p].0 < key
            invariant
                p <= self.children@.len(),
                lower_bound(self.children@, key, 0) == lower_bound(self.children@, key, p as int),
            decreases self.children@.len() - p,
        {
            p = p + 1;
        }
        proof {
            lemma_lower_bound(old(self).children@, key, 0);
        }
        if p < self.children.len() && self.children[p].0 == key {
            self.children.set(p, (key, r));
            proof {
                assert forall|i: int, j: int| 0 <= i < j < self.children@.len() implies
                    (#[trigger] self.children@[i]).0 < (#[trigger] self.children@[j]).0 by {
                    assert(old(self).children@[i].0 < old(self).children@[j].0);
                }
            }
        } else {
            self.children.insert(p, (key, r));
            proof {
                let oc = old(self).children@;
                assert forall|i: int, j: int| 0 <= i < j < self.children@.len() implies
                    (#[trigger] self.children@[i]).0 < (#[trigger] self.children@[j]).0 by {
                    if j < p {
                        assert(oc[i].0 < oc[j].0);
                    } else if j == p {
                        assert(oc[i].0 < key);
                    } else if i < p {
                        assert(oc[i].0 < key);
                        assert(oc[p as int].0 >= key);
                        if j - 1 > p {
                            assert(oc[p as int].0 < oc[j - 1].0);
                        }
                    } else if i == p {
                        assert(oc[p as int].0 > key);
                        if j - 1 > p {
                            assert(oc[p as int].0 < oc[j - 1].0);
                        }
                    } else {
                        assert(oc[i - 1].0 < oc[j - 1].0);
                    }
                }
                assert forall|i: int| 0 <= i < self.children@.len() implies
                    region_end(#[trigger] self.children@[i]) <= u64::MAX by {
                    if i < p {
                        assert(self.children@[i] == oc[i]);
                    } else if i > p {
                        assert(self.children@[i] == oc[i - 1]);
                    }
                }
            }
        }
    }

    /// Create a child VMAR with id `id` at `[offset, offset + size)` of
    /// `parent` and record it among the parent's children.
    pub fn new_child(parent: &mut Vmar, id: VmarId, offset: u64, size: u64, options: u32, align_mask: u64) -> (r: Result<Vmar, Status>)
        requires
            old(parent).wf(),
            offset + size <= u64::MAX,
        ensures
            final(parent).wf(),
            ({
                let p = *old(parent);
                if offset + size > p.size || offset & align_mask != 0 || size & align_mask != 0 {
                    r == Err::<Vmar, Status>(RX_ERR_INVALID_ARGS) && *final(parent) == p
                } else if exists|i: int| 0 <= i < p.children@.len() && (#[trigger] p.children@[i]).0 == offset {
                    r == Err::<Vmar, Status>(RX_ERR_ALREADY_EXISTS) && *final(parent) == p
                } else {
                    &&& r matches Ok(c) && c.id == id && c.base == offset && c.size == size && c.parent
                        == Some(p.id) && c.children@.len() == 0 && c.flags == (VmarFlags {
                        can_map_read: options & vmar_options::CAN_MAP_READ != 0,
                        can_map_write: options & vmar_options::CAN_MAP_WRITE != 0,
                        can_map_execute: options & vmar_options::CAN_MAP_EXECUTE != 0,
                        is_root: false,
                        destroyed: false,
                    }) && c.align_mask == align_mask && c.ref_count == 1 && c.wf()
                    &&& with_child(p, *final(parent), id, offset, size)
                }
            }),
    {
        if offset + size > parent.size {
            return Err(RX_ERR_INVALID_ARGS);
        }
        if offset & align_mask != 0 {
            return Err(RX_ERR_INVALID_ARGS);
        }
        if size & align_mask != 0 {
            return Err(RX_ERR_INVALID_ARGS);
        }
        if parent.find_key(offset).is_some() {
            return Err(RX_ERR_ALREADY_EXISTS);
        }
        let child = Vmar {
            id,
            base: offset,
            size,
            parent: Some(parent.id),
            children: Vec::new(),
            flags: VmarFlags::from_options(options, false),
            align_mask,
            ref_count: 1,
        };
        parent.upsert_child(offset, VmarRegion::Vmar { id, base: offset, size });
        Ok(child)
    }

    /// Map `size` bytes of the VMO `vmo_id` (of `vmo_size` bytes) from
    /// `vmo_offset` into this VMAR, at `vmar_offset` when `SPECIFIC` is set
    /// and in the first free page-aligned gap otherwise.  The mapping's
    /// size is rounded up to whole pages; its offset is returned.
    pub fn map(
        &mut self,
        vmo_id: u64,
        vmo_size: u64,
        vmar_offset: u64,
        vmo_offset: u64,
        size: u64,
        prot: MemProt,
        options: u32,
    ) -> (r: Result<u64, Status>)
        requires
            old(self).wf(),
            !old(self).flags.destroyed && can_map_spec(old(self).flags, perm_of(prot)) ==> {
                &&& size + PAGE_SIZE <= u64::MAX
                &&& vmo_offset + size <= u64::MAX
                &&& options & vmar_options::SPECIFIC != 0 ==> vmar_offset + align_up(size, PAGE_SIZE) <= u64::MAX
                &&& options & vmar_options::SPECIFIC == 0 ==> free_search_ok(old(self).children@, align_up(size, PAGE_SIZE), PAGE_SIZE)
            },
        ensures
            final(self).wf(),
            map_post(*old(self), *final(self), vmo_id, vmo_size, vmar_offset, vmo_offset, size, prot, options, r),
    {
        if self.flags.destroyed {
            return Err(RX_ERR_BAD_STATE);
        }
        let perm = vmar_options::prot_to_perm(prot);
        if !self.flags.can_map(perm) {
            return Err(RX_ERR_ACCESS_DENIED);
        }
        let aligned_size = (size + PAGE_SIZE - 1) & !(PAGE_SIZE - 1);
        proof {
            lemma_and_le((size + PAGE_SIZE - 1) as u64, !((PAGE_SIZE - 1) as u64));
        }
        let offset = if options & vmar_options::SPECIFIC != 0 {
            vmar_offset
        } else {
            match self.find_free_region(aligned_size, PAGE_SIZE) {
                Some(o) => o,
                None => {
                    return Err(RX_ERR_NO_RESOURCES);
                },
            }
        };
        proof {
            if options & vmar_options::SPECIFIC == 0 {
                lemma_free_region_fits(self.children@, 0, 0, aligned_size, PAGE_SIZE, self.size);
            }
        }
        match self.check_overlap(offset, aligned_size) {
            Ok(()) => {},
            Err(e) => {
                return Err(e);
            },
        }
        if vmo_offset + size > vmo_size {
            return Err(RX_ERR_INVALID_ARGS);
        }
        self.upsert_child(offset, VmarRegion::Mapping { vmo_id, vmo_offset, size: aligned_size, prot });
        Ok(offset)
    }

    /// Remove every child that begins before `offset + size` and ends after
    /// `offset`.
    pub fn unmap(&mut self, offset: u64, size: u64) -> (r: Result<(), Status>)
        requires
            old(self).wf(),
            !old(self).flags.destroyed ==> offset + size <= u64::MAX,
        ensures
            final(self).wf(),
            old(self).flags.destroyed ==> r == Err::<(), Status>(RX_ERR_BAD_STATE) && *final(self) == *old(self),
            !old(self).flags.destroyed ==> r is Ok && final(self).children@ == unmapped(
                old(self).children@,
                offset as int,
                offset + size,
            ) && final(self).size == old(self).size && final(self).flags == old(self).flags
                && final(self).id == old(self).id && final(self).base == old(self).base
                && final(self).parent == old(self).parent && final(self).align_mask == old(self).align_mask
                && final(self).ref_count == old(self).ref_count,
    {
        if self.flags.destroyed {
            return Err(RX_ERR_BAD_STATE);
        }
        let start = offset;
        let end = offset + size;
        let mut kept: Vec<(u64, VmarRegion)> = Vec::new();
        let mut i: usize = 0;
        while i < self.children.len()
            invariant
                self.wf(),
                end == offset + size,
                i <= self.children@.len(),
                kept@ == unmapped(self.children@.subrange(0, i as int), start as int, end as int),
            decreases self.children@.len() - i,
        {
            let e = self.children[i];
            proof {
                assert(self.children@.subrange(0, i + 1).drop_last() =~= self.children@.subrange(0, i as int));
                assert(self.children@.subrange(0, i + 1).last() == e);
            }
            let child_end = e.0 + e.1.size();
            if !(e.0 < end && child_end > start) {
                kept.push(e);
            }
            i = i + 1;
        }
        proof {
            assert(self.children@.subrange(0, self.children@.len() as int) =~= self.children@);
            lemma_unmapped_wf(self.children@, start as int, end as int);
        }
        self.children = kept;
        Ok(())
    }

    /// Change the protection of the mapping at offset `offset`.
    pub fn protect(&mut self, offset: u64, size: u64, new_prot: MemProt) -> (r: Result<(), Status>)
        requires
            old(self).wf(),
        ensures
            final(self).wf(),
            protect_post(*old(self), *final(self), offset, new_prot, r),
    {
        if self.flags.destroyed {
            return Err(RX_ERR_BAD_STATE);
        }
        let perm = vmar_options::prot_to_perm(new_prot);
        if !self.flags.can_map(perm) {
            return Err(RX_ERR_ACCESS_DENIED);
        }
        match self.find_key(offset) {
            Some(i) => {
                match self.children[i].1 {
                    VmarRegion::Mapping { vmo_id, vmo_offset, size, prot } => {
                        self.children.set(i, (offset, VmarRegion::Mapping { vmo_id, vmo_offset, size, prot: new_prot }));
                        proof {
                            assert forall|a: int, b: int| 0 <= a < b < self.children@.len() implies
                                (#[trigger] self.children@[a]).0 < (#[trigger] self.children@[b]).0 by {
                                assert(old(self).children@[a].0 < old(self).children@[b].0);
                            }
                            assert forall|a: int| 0 <= a < self.children@.len() implies
                                region_end(#[trigger] self.children@[a]) <= u64::MAX by {
                                assert(region_end(old(self).children@[a]) <= u64::MAX);
                            }
                        }
                        Ok(())
                    },
                    VmarRegion::Vmar { .. } => Err(RX_ERR_WRONG_TYPE),
                }
            },
            None => Err(RX_ERR_NOT_FOUND),
        }
    }
}


/// Permission bits of a protection.
pub open spec fn perm_of(prot: MemProt) -> u32 {
    (if prot.read { vmar_options::PERM_READ } else { 0u32 }) | (if prot.write {
        vmar_options::PERM_WRITE
    } else {
        0u32
    }) | (if prot.execute { vmar_options::PERM_EXECUTE } else { 0u32 })
}

/// Outcome of `Vmar::map` on `v`, giving `v2` and `r`.
pub open spec fn map_post(
    v: Vmar,
    v2: Vmar,
    vmo_id: u64,
    vmo_size: u64,
    vmar_offset: u64,
    vmo_offset: u64,
    size: u64,
    prot: MemProt,
    options: u32,
    r: Result<u64, Status>,
) -> bool {
    let aligned = align_up(size, PAGE_SIZE);
    let off = if options & vmar_options::SPECIFIC != 0 {
        Some(vmar_offset)
    } else {
        free_region_from(v.children@, 0, 0, aligned, PAGE_SIZE, v.size)
    };
    if v.flags.destroyed {
        r == Err::<u64, Status>(RX_ERR_BAD_STATE) && v2 == v
    } else if !can_map_spec(v.flags, perm_of(prot)) {
        r == Err::<u64, Status>(RX_ERR_ACCESS_DENIED) && v2 == v
    } else if off is None {
        r == Err::<u64, Status>(RX_ERR_NO_RESOURCES) && v2 == v
    } else if exists|i: int| 0 <= i < v.children@.len() && overlaps(#[trigger] v.children@[i], off->0 as int, off->0 + aligned) {
        r == Err::<u64, Status>(RX_ERR_ALREADY_EXISTS) && v2 == v
    } else if vmo_offset + size > vmo_size {
        r == Err::<u64, Status>(RX_ERR_INVALID_ARGS) && v2 == v
    } else {
        &&& r == Ok::<u64, Status>(off->0)
        &&& v2.children@ == upsert(v.children@, off->0, VmarRegion::Mapping { vmo_id, vmo_offset, size: aligned, prot })
        &&& v2.id == v.id && v2.base == v.base && v2.size == v.size && v2.flags == v.flags
        &&& v2.parent == v.parent && v2.align_mask == v.align_mask && v2.ref_count == v.ref_count
    }
}

/// Result `Vmar::map` gives on `v` (see `map_post`).
pub open spec fn map_result(
    v: Vmar,
    vmo_size: u64,
    vmar_offset: u64,
    vmo_offset: u64,
    size: u64,
    prot: MemProt,
    options: u32,
) -> Result<u64, Status> {
    let aligned = align_up(size, PAGE_SIZE);
    let off = if options & vmar_options::SPECIFIC != 0 {
        Some(vmar_offset)
    } else {
        free_region_from(v.children@, 0, 0, aligned, PAGE_SIZE, v.size)
    };
    if v.flags.destroyed {
        Err(RX_ERR_BAD_STATE)
    } else if !can_map_spec(v.flags, perm_of(prot)) {
        Err(RX_ERR_ACCESS_DENIED)
    } else if off is None {
        Err(RX_ERR_NO_RESOURCES)
    } else if exists|i: int| 0 <= i < v.children@.len() && overlaps(#[trigger] v.children@[i], off->0 as int, off->0 + aligned) {
        Err(RX_ERR_ALREADY_EXISTS)
    } else if vmo_offset + size > vmo_size {
        Err(RX_ERR_INVALID_ARGS)
    } else {
        Ok(off->0)
    }
}

/// Law: a destroyed VMAR refuses every mapping and every protection change
/// with `RX_ERR_BAD_STATE`, and stays as it was.
pub proof fn lemma_destroyed_refuses(
    v: Vmar,
    v2: Vmar,
    vmo_id: u64,
    vmo_size: u64,
    vmar_offset: u64,
    vmo_offset: u64,
    size: u64,
    prot: MemProt,
    options: u32,
    r: Result<u64, Status>,
    offset: u64,
    pr: Result<(), Status>,
)
    requires
        v.flags.destroyed,
    ensures
        map_result(v, vmo_size, vmar_offset, vmo_offset, size, prot, options) == Err::<u64, Status>(RX_ERR_BAD_STATE),
        map_post(v, v2, vmo_id, vmo_size, vmar_offset, vmo_offset, size, prot, options, r)
            ==> r == Err::<u64, Status>(RX_ERR_BAD_STATE) && v2 == v,
        protect_post(v, v2, offset, prot, pr) ==> pr == Err::<(), Status>(RX_ERR_BAD_STATE) && v2 == v,
{
}

/// Outcome of `Vmar::protect` at `offset` on `v`, giving `v2` and `r`.
pub open spec fn protect_post(v: Vmar, v2: Vmar, offset: u64, new_prot: MemProt, r: Result<(), Status>) -> bool {
    if v.flags.destroyed {
        r == Err::<(), Status>(RX_ERR_BAD_STATE) && v2 == v
    } else if !can_map_spec(v.flags, perm_of(new_prot)) {
        r == Err::<(), Status>(RX_ERR_ACCESS_DENIED) && v2 == v
    } else if exists|i: int| 0 <= i < v.children@.len() && (#[trigger] v.children@[i]).0 == offset {
        let i = choose|i: int| 0 <= i < v.children@.len() && (#[trigger] v.children@[i]).0 == offset;
        match v.children@[i].1 {
            VmarRegion::Mapping { vmo_id, vmo_offset, size, prot } => {
                &&& r is Ok
                &&& v2.children@ == v.children@.update(i, (offset, VmarRegion::Mapping { vmo_id, vmo_offset, size, prot: new_prot }))
                &&& v2.id == v.id && v2.base == v.base && v2.size == v.size && v2.flags == v.flags
                &&& v2.parent == v.parent && v2.align_mask == v.align_mask && v2.ref_count == v.ref_count
            },
            VmarRegion::Vmar { .. } => r == Err::<(), Status>(RX_ERR_WRONG_TYPE) && v2 == v,
        }
    } else {
        r == Err::<(), Status>(RX_ERR_NOT_FOUND) && v2 == v
    }
}

/// The permission bits of a protection: read is bit 0x1, write bit 0x2 and
/// execute bit 0x4, each set exactly when the protection grants it.
proof fn lemma_perm_bits(prot: MemProt)
    ensures
        (perm_of(prot) & 0x1 != 0) == prot.read,
        (perm_of(prot) & 0x2 != 0) == prot.write,
        (perm_of(prot) & 0x4 != 0) == prot.execute,
{
    let a: u32 = if prot.read { 1u32 } else { 0u32 };
    let b: u32 = if prot.write { 2u32 } else { 0u32 };
    let c: u32 = if prot.execute { 4u32 } else { 0u32 };
    assert(perm_of(prot) == a | b | c);
    assert(((a | b | c) & 0x1 != 0) == (a == 1) && ((a | b | c) & 0x2 != 0) == (b == 2)
        && ((a | b | c) & 0x4 != 0) == (c == 4)) by (bit_vector)
        requires
            a == 0 || a == 1,
            b == 0 || b == 2,
            c == 0 || c == 4,
    ;
}

/// Law: a VMAR allows a set of permission bits exactly when it allows each
/// access in it: read (bit 0x1) needs `can_map_read`, write (bit 0x2)
/// `can_map_write` and execute (bit 0x4) `can_map_execute`.  So a live VMAR
/// refuses, with `RX_ERR_ACCESS_DENIED` and no change, every mapping and
/// every protection change that asks for an access it does not allow, such
/// as an executable mapping in a VMAR without `can_map_execute`.
pub proof fn lemma_map_needs_permission(
    f: VmarFlags,
    perm: u32,
    v: Vmar,
    v2: Vmar,
    vmo_id: u64,
    vmo_size: u64,
    vmar_offset: u64,
    vmo_offset: u64,
    size: u64,
    prot: MemProt,
    options: u32,
    r: Result<u64, Status>,
    offset: u64,
    pr: Result<(), Status>,
)
    ensures
        can_map_spec(f, perm) <==> ((perm & 0x1 == 0 || f.can_map_read) && (perm & 0x2 == 0 || f.can_map_write)
            && (perm & 0x4 == 0 || f.can_map_execute)),
        !v.flags.destroyed && ((prot.read && !v.flags.can_map_read) || (prot.write && !v.flags.can_map_write)
            || (prot.execute && !v.flags.can_map_execute)) ==> {
            &&& map_result(v, vmo_size, vmar_offset, vmo_offset, size, prot, options) == Err::<u64, Status>(RX_ERR_ACCESS_DENIED)
            &&& map_post(v, v2, vmo_id, vmo_size, vmar_offset, vmo_offset, size, prot, options, r)
                ==> r == Err::<u64, Status>(RX_ERR_ACCESS_DENIED) && v2 == v
            &&& protect_post(v, v2, offset, prot, pr) ==> pr == Err::<(), Status>(RX_ERR_ACCESS_DENIED) && v2 == v
        },
{
    lemma_perm_bits(prot);
}

/// Law: a mapping that succeeds at offset `o` records, at `o`, a mapping of
/// the VMO `vmo_id` from `vmo_offset` with the requested protection and the
/// size rounded up to whole pages; `o` is the requested offset when
/// `SPECIFIC` is set, the mapping overlaps no earlier child, it lies within
/// the VMO, and every earlier child at another offset is kept.
pub proof fn lemma_map_records_mapping(
    v: Vmar,
    v2: Vmar,
    vmo_id: u64,
    vmo_size: u64,
    vmar_offset: u64,
    vmo_offset: u64,
    size: u64,
    prot: MemProt,
    options: u32,
    r: Result<u64, Status>,
)
    requires
        v.wf(),
        map_post(v, v2, vmo_id, vmo_size, vmar_offset, vmo_offset, size, prot, options, r),
        r is Ok,
    ensures
        ({
            let o = r->Ok_0;
            let a = align_up(size, PAGE_SIZE);
            &&& v2.children@.contains((o, VmarRegion::Mapping { vmo_id, vmo_offset, size: a, prot }))
            &&& options & vmar_options::SPECIFIC != 0 ==> o == vmar_offset
            &&& vmo_offset + size <= vmo_size
            &&& forall|j: int| 0 <= j < v.children@.len() ==> !overlaps(#[trigger] v.children@[j], o as int, o + a)
            &&& forall|j: int| 0 <= j < v.children@.len() && (#[trigger] v.children@[j]).0 != o ==> v2.children@.contains(v.children@[j])
            &&& !v.flags.destroyed && can_map_spec(v.flags, perm_of(prot))
            &&& size + PAGE_SIZE <= u64::MAX ==> a >= size && a & 0xFFF == 0
        }),
{
    let o = r->Ok_0;
    let a = align_up(size, PAGE_SIZE);
    let ch = v.children@;
    let e = (o, VmarRegion::Mapping { vmo_id, vmo_offset, size: a, prot });
    lemma_lower_bound(ch, o, 0);
    let p = lower_bound(ch, o, 0);
    assert(v2.children@[p] == e);
    assert forall|j: int| 0 <= j < ch.len() && (#[trigger] ch[j]).0 != o implies v2.children@.contains(ch[j]) by {
        if p < ch.len() && ch[p].0 == o {
            assert(v2.children@[j] == ch[j]);
        } else if j < p {
            assert(v2.children@[j] == ch[j]);
        } else {
            assert(v2.children@[j + 1] == ch[j]);
        }
    }
    if size + PAGE_SIZE <= u64::MAX {
        let y = (size + 4095) as u64;
        assert(y & !0xFFFu64 >= size && (y & !0xFFFu64) & 0xFFF == 0) by (bit_vector)
            requires
                y == size + 4095,
                size + 4096 <= 0xffff_ffff_ffff_ffffu64,
        ;
    }
}

/// Law: a protection change that succeeds leaves the child at `offset` a
/// mapping of the same VMO range and size whose protection is `new_prot`,
/// and every other child as it was.
pub proof fn lemma_protect_sets_prot(v: Vmar, v2: Vmar, offset: u64, new_prot: MemProt, r: Result<(), Status>)
    requires
        v.wf(),
        protect_post(v, v2, offset, new_prot, r),
        r is Ok,
    ensures
        v2.children@.len() == v.children@.len(),
        exists|i: int| 0 <= i < v.children@.len() && (#[trigger] v.children@[i]).0 == offset,
        forall|i: int| 0 <= i < v.children@.len() && (#[trigger] v.children@[i]).0 == offset ==> {
            &&& v.children@[i].1 is Mapping
            &&& v2.children@[i] == (offset, VmarRegion::Mapping {
                vmo_id: v.children@[i].1->vmo_id,
                vmo_offset: v.children@[i].1->vmo_offset,
                size: v.children@[i].1->Mapping_size,
                prot: new_prot,
            })
        },
        forall|j: int| 0 <= j < v.children@.len() && (#[trigger] v.children@[j]).0 != offset ==> v2.children@[j] == v.children@[j],
{
    let c = choose|i: int| 0 <= i < v.children@.len() && (#[trigger] v.children@[i]).0 == offset;
    assert forall|i: int| 0 <= i < v.children@.len() && (#[trigger] v.children@[i]).0 == offset implies i == c by {
        if i < c {
            assert(v.children@[i].0 < v.children@[c].0);
        } else if i > c {
            assert(v.children@[c].0 < v.children@[i].0);
        }
    }
}

/// `lower_bound` from `i` lands in `[i, len]`, past only smaller keys.
proof fn lemma_lower_bound(ch: Seq<(u64, VmarRegion)>, key: u64, i: int)
    requires
        0 <= i <= ch.len(),
    ensures
        i <= lower_bound(ch, key, i) <= ch.len(),
        forall|j: int| i <= j < lower_bound(ch, key, i) ==> (#[trigger] ch[j]).0 < key,
        lower_bound(ch, key, i) < ch.len() ==> ch[lower_bound(ch, key, i)].0 >= key,
    decreases ch.len() - i,
{
    if i < ch.len() && ch[i].0 < key {
        lemma_lower_bound(ch, key, i + 1);
    }
}

/// A region found by the gap scan fits below 64-bit overflow.
proof fn lemma_free_region_fits(ch: Seq<(u64, VmarRegion)>, i: int, prev_end: u64, size: u64, a: u64, total: u64)
    requires
        0 <= i <= ch.len(),
        children_wf(ch),
    ensures
        free_region_from(ch, i, prev_end, size, a, total) matches Some(s) ==> s + size <= u64::MAX,
    decreases ch.len() - i,
{
    if i < ch.len() {
        lemma_free_region_fits(ch, i + 1, region_end(ch[i]) as u64, size, a, total);
    }
}

/// Every child kept by an unmap was a child before.
proof fn lemma_unmapped_subset(ch: Seq<(u64, VmarRegion)>, start: int, end: int)
    ensures
        forall|k: int| 0 <= k < unmapped(ch, start, end).len() ==> exists|m: int| 0 <= m < ch.len() && ch[m] == #[trigger] unmapped(ch, start, end)[k],
        unmapped(ch, start, end).len() <= ch.len(),
    decreases ch.len(),
{
    if ch.len() > 0 {
        lemma_unmapped_subset(ch.drop_last(), start, end);
        let rest = unmapped(ch.drop_last(), start, end);
        assert forall|k: int| 0 <= k < unmapped(ch, start, end).len() implies exists|m: int| 0 <= m < ch.len() && ch[m] == #[trigger] unmapped(ch, start, end)[k] by {
            if k < rest.len() {
                let m = choose|m: int| 0 <= m < ch.drop_last().len() && ch.drop_last()[m] == rest[k];
                assert(ch[m] == rest[k]);
            } else {
                assert(ch[ch.len() - 1] == unmapped(ch, start, end)[k]);
            }
        }
    }
}

/// Unmapping keeps the children sorted and bounded.
proof fn lemma_unmapped_wf(ch: Seq<(u64, VmarRegion)>, start: int, end: int)
    requires
        children_wf(ch),
    ensures
        children_wf(unmapped(ch, start, end)),
    decreases ch.len(),
{
    if ch.len() > 0 {
        let dl = ch.drop_last();
        assert forall|i: int, j: int| 0 <= i < j < dl.len() implies (#[trigger] dl[i]).0 < (#[trigger] dl[j]).0 by {
            assert(ch[i].0 < ch[j].0);
        }
        assert forall|i: int| 0 <= i < dl.len() implies region_end(#[trigger] dl[i]) <= u64::MAX by {
            assert(region_end(ch[i]) <= u64::MAX);
        }
        lemma_unmapped_wf(dl, start, end);
        lemma_unmapped_subset(dl, start, end);
        let rest = unmapped(dl, start, end);
        if !overlaps(ch.last(), start, end) {
            let u = rest.push(ch.last());
            assert forall|i: int, j: int| 0 <= i < j < u.len() implies (#[trigger] u[i]).0 < (#[trigger] u[j]).0 by {
                if j == u.len() - 1 {
                    let m = choose|m: int| 0 <= m < dl.len() && dl[m] == #[trigger] rest[i];
                    assert(ch[m].0 < ch[ch.len() - 1].0);
                } else {
                    assert(rest[i].0 < rest[j].0);
                }
            }
            assert forall|i: int| 0 <= i < u.len() implies region_end(#[trigger] u[i]) <= u64::MAX by {
                if i < rest.len() {
                    assert(region_end(rest[i]) <= u64::MAX);
                } else {
                    assert(region_end(ch[ch.len() - 1]) <= u64::MAX);
                }
            }
        }
    }
}

/// Unmapping clears the range and nothing else: no kept child overlaps
/// `[start, end)`, and every child that does not overlap it is kept.
pub proof fn lemma_unmap_clears_range(ch: Seq<(u64, VmarRegion)>, start: int, end: int)
    ensures
        forall|k: int| 0 <= k < unmapped(ch, start, end).len() ==> !overlaps(#[trigger] unmapped(ch, start, end)[k], start, end),
        forall|i: int| 0 <= i < ch.len() && !overlaps(#[trigger] ch[i], start, end) ==> unmapped(ch, start, end).contains(ch[i]),
    decreases ch.len(),
{
    if ch.len() > 0 {
        let dl = ch.drop_last();
        lemma_unmap_clears_range(dl, start, end);
        let rest = unmapped(dl, start, end);
        let u = unmapped(ch, start, end);
        assert forall|k: int| 0 <= k < u.len() implies !overlaps(#[trigger] u[k], start, end) by {
            if k < rest.len() {
                assert(u[k] == rest[k]);
            }
        }
        assert forall|i: int| 0 <= i < ch.len() && !overlaps(#[trigger] ch[i], start, end) implies u.contains(ch[i]) by {
            if i < dl.len() {
                assert(dl[i] == ch[i]);
                assert(rest.contains(dl[i]));
                let j = choose|j: int| 0 <= j < rest.len() && rest[j] == dl[i];
                assert(u[j] == rest[j]);
            } else {
                assert(u[u.len() - 1] == ch[i]);
            }
        }
    }
}

/// Unmapping a range twice is the same as unmapping it once.
pub proof fn lemma_unmap_idempotent(ch: Seq<(u64, VmarRegion)>, start: int, end: int)
    ensures
        unmapped(unmapped(ch, start, end), start, end) == unmapped(ch, start, end),
    decreases ch.len(),
{
    if ch.len() > 0 {
        let dl = ch.drop_last();
        lemma_unmap_idempotent(dl, start, end);
        let rest = unmapped(dl, start, end);
        if !overlaps(ch.last(), start, end) {
            assert(rest.push(ch.last()).drop_last() =~= rest);
            assert(rest.push(ch.last()).last() == ch.last());
        }
    }
}

/// Whether `a` is a power of two.
pub open spec fn is_pow2(a: u64) -> bool {
    a >= 1 && a & ((a - 1) as u64) == 0
}

/// Children lying one after the other without overlap.
pub open spec fn ordered_disjoint(ch: Seq<(u64, VmarRegion)>) -> bool {
    forall|i: int, j: int| 0 <= i < j < ch.len() ==> region_end(#[trigger] ch[i]) <= (#[trigger] ch[j]).0
}

/// Rounding up to a power of two never goes below the value.
proof fn lemma_align_up_ge(x: u64, a: u64)
    requires
        is_pow2(a),
        x + a <= u64::MAX,
    ensures
        align_up(x, a) >= x,
        align_up(x, a) <= x + a - 1,
{
    let m = (a - 1) as u64;
    let y = (x + m) as u64;
    assert(y & !m >= x && y & !m <= y) by (bit_vector)
        requires
            a >= 1,
            a & m == 0,
            m == a - 1,
            y == x + m,
            x + a <= 0xffff_ffff_ffff_ffffu64,
    ;
}

/// Whether `t` is a multiple of the power-of-two alignment `a`.
pub open spec fn aligned_to(t: u64, a: u64) -> bool {
    t & ((a - 1) as u64) == 0
}

/// `align_up` gives the least multiple of a power-of-two alignment at or
/// above `x`.
proof fn lemma_align_up_least(x: u64, a: u64, t: u64)
    requires
        is_pow2(a),
        x + a <= u64::MAX,
        aligned_to(t, a),
        t >= x,
    ensures
        t >= align_up(x, a),
{
    let m = (a - 1) as u64;
    let y = (x + m) as u64;
    assert(t >= y & !m) by (bit_vector)
        requires
            a >= 1,
            a & m == 0,
            m == a - 1,
            y == x + m,
            x + a <= 0xffff_ffff_ffff_ffffu64,
            t & m == 0,
            t >= x,
    ;
}

/// The gap scan from child `i` skips no aligned start at or after
/// `prev_end`: every aligned start below the one found overlaps a child.
proof fn lemma_gap_scan_least(ch: Seq<(u64, VmarRegion)>, i: int, prev_end: u64, size: u64, a: u64, total: u64)
    requires
        children_wf(ch),
        ordered_disjoint(ch),
        free_search_ok(ch, size, a),
        is_pow2(a),
        0 <= i <= ch.len(),
        prev_end + a + size <= u64::MAX,
        forall|j: int| 0 <= j < ch.len() ==> region_end(#[trigger] ch[j]) <= total,
        forall|j: int| 0 <= j < i ==> region_end(#[trigger] ch[j]) <= prev_end,
        i < ch.len() ==> prev_end <= ch[i].0,
    ensures
        free_region_from(ch, i, prev_end, size, a, total) matches Some(s) ==> forall|t: u64|
            #[trigger] aligned_to(t, a) && prev_end <= t < s ==> exists|j: int| 0 <= j < ch.len()
                && overlaps(#[trigger] ch[j], t as int, t + size),
        free_region_from(ch, i, prev_end, size, a, total) is None ==> forall|t: u64|
            #[trigger] aligned_to(t, a) && prev_end <= t && t + size <= total ==> exists|j: int| 0 <= j < ch.len()
                && overlaps(#[trigger] ch[j], t as int, t + size),
    decreases ch.len() - i,
{
    let c = align_up(prev_end, a);
    if i >= ch.len() || c + size <= ch[i].0 {
        assert forall|t: u64| #[trigger] aligned_to(t, a) && prev_end <= t < c implies false by {
            lemma_align_up_least(prev_end, a, t);
        }
        if free_region_from(ch, i, prev_end, size, a, total) is None {
            assert forall|t: u64| #[trigger] aligned_to(t, a) && prev_end <= t && t + size <= total implies false by {
                lemma_align_up_least(prev_end, a, t);
            }
        }
    } else {
        let pe = region_end(ch[i]) as u64;
        assert forall|j: int| 0 <= j < i + 1 implies region_end(#[trigger] ch[j]) <= pe by {
            if j < i {
                assert(region_end(ch[j]) <= ch[i].0);
            }
        }
        assert(region_end(ch[i]) + a + size <= u64::MAX);
        if i + 1 < ch.len() {
            assert(region_end(ch[i]) <= ch[i + 1].0);
        }
        lemma_gap_scan_least(ch, i + 1, pe, size, a, total);
        if let Some(s) = free_region_from(ch, i, prev_end, size, a, total) {
            assert forall|t: u64| #[trigger] aligned_to(t, a) && prev_end <= t < s implies exists|j: int| 0 <= j < ch.len()
                && overlaps(#[trigger] ch[j], t as int, t + size) by {
                if t < pe {
                    lemma_align_up_least(prev_end, a, t);
                    assert(overlaps(ch[i], t as int, t + size));
                }
            }
        }
        if free_region_from(ch, i, prev_end, size, a, total) is None {
            assert forall|t: u64| #[trigger] aligned_to(t, a) && prev_end <= t && t + size <= total implies exists|j: int| 0 <= j < ch.len()
                && overlaps(#[trigger] ch[j], t as int, t + size) by {
                if t < pe {
                    lemma_align_up_least(prev_end, a, t);
                    assert(overlaps(ch[i], t as int, t + size));
                }
            }
        }
    }
}

/// The gap scan from child `i`, when everything before `i` ends by
/// `prev_end`, yields a range starting at or after `prev_end` that overlaps
/// no child and ends within `total`.
proof fn lemma_gap_scan(ch: Seq<(u64, VmarRegion)>, i: int, prev_end: u64, size: u64, a: u64, total: u64)
    requires
        children_wf(ch),
        ordered_disjoint(ch),
        forall|j: int| 0 <= j < ch.len() ==> region_end(#[trigger] ch[j]) <= total,
        free_search_ok(ch, size, a),
        is_pow2(a),
        0 <= i <= ch.len(),
        prev_end + a + size <= u64::MAX,
        forall|j: int| 0 <= j < i ==> region_end(#[trigger] ch[j]) <= prev_end,
        i < ch.len() ==> prev_end <= ch[i].0,
    ensures
        free_region_from(ch, i, prev_end, size, a, total) matches Some(s) ==> s >= prev_end && s + size <= total
            && s & ((a - 1) as u64) == 0
            && forall|j: int| 0 <= j < ch.len() ==> !overlaps(#[trigger] ch[j], s as int, s + size),
    decreases ch.len() - i,
{
    lemma_align_up_ge(prev_end, a);
    lemma_align_up_aligned(prev_end, a);
    let s = align_up(prev_end, a);
    if i >= ch.len() {
    } else if s + size <= ch[i].0 {
        assert(region_end(ch[i]) <= total);
        assert forall|j: int| 0 <= j < ch.len() implies !overlaps(#[trigger] ch[j], s as int, s + size) by {
            if j < i {
                assert(region_end(ch[j]) <= prev_end);
            }
            if j > i {
                assert(ch[i].0 < ch[j].0);
            }
        }
    } else {
        let pe = region_end(ch[i]) as u64;
        assert forall|j: int| 0 <= j < i + 1 implies region_end(#[trigger] ch[j]) <= pe by {
            if j < i {
                assert(region_end(ch[j]) <= ch[i].0);
            }
        }
        assert(region_end(ch[i]) + a + size <= u64::MAX);
        if i + 1 < ch.len() {
            assert(region_end(ch[i]) <= ch[i + 1].0);
        }
        lemma_gap_scan(ch, i + 1, pe, size, a, total);
    }
}

/// `align_up` lands on a multiple of a power-of-two alignment.
proof fn lemma_align_up_aligned(x: u64, a: u64)
    requires
        is_pow2(a),
        x + a - 1 <= u64::MAX,
    ensures
        align_up(x, a) & ((a - 1) as u64) == 0,
{
    let y = (x + a - 1) as u64;
    let m = (a - 1) as u64;
    assert((y & !m) & m == 0) by (bit_vector);
}

/// Law: when the children of a VMAR lie one after the other inside it, a
/// free region found for `size` bytes at power-of-two alignment starts at a
/// multiple of the alignment, lies inside the VMAR, overlaps no child, and
/// is the lowest such start: every aligned start below it overlaps a child.
pub proof fn lemma_free_region_is_free(v: Vmar, size: u64, alignment: u64)
    requires
        v.wf(),
        ordered_disjoint(v.children@),
        forall|j: int| 0 <= j < v.children@.len() ==> region_end(#[trigger] v.children@[j]) <= v.size,
        free_search_ok(v.children@, size, alignment),
        is_pow2(alignment),
    ensures
        free_region_from(v.children@, 0, 0, size, alignment, v.size) matches Some(s) ==> s + size <= v.size
            && s & ((alignment - 1) as u64) == 0
            && (forall|j: int| 0 <= j < v.children@.len() ==> !overlaps(#[trigger] v.children@[j], s as int, s + size))
            && forall|t: u64| #[trigger] aligned_to(t, alignment) && t < s ==> exists|j: int| 0 <= j < v.children@.len()
                && overlaps(#[trigger] v.children@[j], t as int, t + size),
{
    lemma_gap_scan(v.children@, 0, 0, size, alignment, v.size);
    lemma_gap_scan_least(v.children@, 0, 0, size, alignment, v.size);
}

/// Capacity of the VMAR registry.
pub const MAX_VMARS: usize = 65536;

/// Every VMAR known to the kernel, by id.
pub struct VmarRegistry {
    pub table: SlotTable<Vmar>,
}

impl VmarRegistry {
    /// Every slot holds a well-formed VMAR under its own id.
    pub open spec fn wf(&self) -> bool {
        &&& self.table.wf()
        &&& forall|i: int| 0 <= i < self.table.slots@.len() && (#[trigger] self.table.slots@[i]) is Some
            ==> (self.table.slots@[i]->0).1.wf() && (self.table.slots@[i]->0).1.id == (self.table.slots@[i]->0).0
    }

    /// The VMAR registered under `id`, if any.
    pub open spec fn find(&self, id: VmarId) -> Option<Vmar> {
        self.table.find(id)
    }

    /// An empty registry of `MAX_VMARS` slots.
    pub fn new() -> (r: VmarRegistry)
        ensures
            r.wf(),
            r.table.slots@.len() == MAX_VMARS,
            r.table.count == 0,
            forall|id: VmarId| r.find(id) is None,
    {
        VmarRegistry { table: SlotTable::new(MAX_VMARS) }
    }

    /// Register `vmar` under its id, in the first free slot probing the
    /// whole table from its home slot.
    pub fn insert(&mut self, vmar: Vmar) -> (r: Result<(), Status>)
        requires
            old(self).wf(),
            vmar.wf(),
        ensures
            final(self).wf(),
            insert_post(old(self).table, final(self).table, vmar.id, vmar, match r {
                Ok(()) => Ok::<u64, Status>(vmar.id),
                Err(e) => Err::<u64, Status>(e),
            }),
            r is Ok ==> exists|i: int| 0 <= i < final(self).table.slots@.len() && #[trigger] final(self).table.slots@[i] == Some((vmar.id, vmar)),
    {
        let id = vmar.id;
        let ghost v = vmar;
        let rr = self.table.insert(id, vmar);
        proof {
            assert forall|i: int| 0 <= i < self.table.slots@.len() && (#[trigger] self.table.slots@[i]) is Some implies
                (self.table.slots@[i]->0).1.wf() && (self.table.slots@[i]->0).1.id == (self.table.slots@[i]->0).0 by {
                if old(self).table.slots@[i] is Some && self.table.slots@[i] == old(self).table.slots@[i] {
                } else {
                    assert(self.table.slots@[i] == Some((id, v)));
                }
            }
            assert(insert_post(old(self).table, self.table, id, v, rr));
            if rr is Ok {
                crate::registry::lemma_insert_post_slot(old(self).table, self.table, id, v, rr);
            }
        }
        match rr {
            Ok(_) => Ok(()),
            Err(e) => Err(e),
        }
    }

    /// The VMAR registered under `id`, as a lookup finds it.
    pub fn get(&self, id: VmarId) -> (r: Option<&Vmar>)
        requires
            self.wf(),
        ensures
            r matches Some(v) ==> self.find(id) == Some(*v),
            r is None ==> self.find(id) is None,
    {
        self.table.get(id)
    }

    /// Remove the entry a lookup of `id` finds; `RX_ERR_NOT_FOUND` when no
    /// slot holds `id`, and then nothing changes.
    pub fn remove(&mut self, id: VmarId) -> (r: Result<(), Status>)
        requires
            old(self).wf(),
        ensures
            final(self).wf(),
            ({
                let h = slot_of(old(self).table.slots@, id);
                if h >= 0 {
                    r is Ok && final(self).table.slots@ == old(self).table.slots@.update(h, None)
                        && final(self).table.count == old(self).table.count.wrapping_sub(1)
                } else {
                    r == Err::<(), Status>(RX_ERR_NOT_FOUND) && *final(self) == *old(self)
                }
            }),
    {
        self.table.remove_id(id)
    }

    /// Number of registered VMARs.
    pub fn count(&self) -> (c: usize)
        ensures
            c == self.table.count,
    {
        self.table.count
    }
}

/// The VMAR state of the kernel: the registry, the root user VMAR once set
/// up, and the next VMAR id to hand out.
pub struct VmarSpace {
    pub registry: VmarRegistry,
    pub root: Option<Vmar>,
    pub next_id: VmarId,
}

/// VMAR reached through a handle value: the root VMAR for 0, otherwise the
/// VMAR registered under the value.
pub open spec fn vmar_for_handle(s: VmarSpace, handle: u32) -> Result<Vmar, Status> {
    if handle == 0 {
        match s.root {
            Some(r) => Ok(r),
            None => Err(RX_ERR_NOT_SUPPORTED),
        }
    } else {
        match s.registry.find(handle as u64) {
            Some(v) => Ok(v),
            None => Err(RX_ERR_INVALID_ARGS),
        }
    }
}

/// `s2` is `s` with the VMAR reached through `handle` replaced by `v`.
pub open spec fn vmar_replaced(s: VmarSpace, s2: VmarSpace, handle: u32, v: Vmar) -> bool {
    &&& s2.next_id == s.next_id
    &&& if handle == 0 {
        s2.root == Some(v) && s2.registry == s.registry
    } else {
        &&& s2.root == s.root
        &&& s2.registry.table.next_index == s.registry.table.next_index
        &&& s2.registry.table.count == s.registry.table.count
        &&& s2.registry.table.slots@ == s.registry.table.slots@.update(
            slot_of(s.registry.table.slots@, handle as u64),
            Some((handle as u64, v)),
        )
    }
}

impl VmarSpace {
    pub open spec fn wf(&self) -> bool {
        &&& self.registry.wf()
        &&& self.root matches Some(r) ==> r.wf()
    }

    /// No VMARs yet; ids are handed out from 1.
    pub fn new() -> (s: VmarSpace)
        ensures
            s.wf(),
            s.root is None,
            s.next_id == 1,
            forall|id: VmarId| s.registry.find(id) is None,
    {
        VmarSpace { registry: VmarRegistry::new(), root: None, next_id: 1 }
    }

    /// Hand out the next VMAR id.
    fn alloc_id(&mut self) -> (id: VmarId)
        ensures
            id == old(self).next_id,
            final(self).next_id == old(self).next_id.wrapping_add(1),
            final(self).registry == old(self).registry,
            final(self).root == old(self).root,
    {
        let id = self.next_id;
        self.next_id = self.next_id.wrapping_add(1);
        id
    }

    /// A VMAR reached through a handle is well formed, and one registered
    /// under the handle's value carries it as its id.
    pub proof fn lemma_found_wf(&self, handle: u32)
        requires
            self.wf(),
        ensures
            vmar_for_handle(*self, handle) matches Ok(v) ==> v.wf() && (handle != 0 ==> v.id == handle as u64),
    {
        lemma_slot_of(self.registry.table.slots@, handle as u64);
        let p = slot_of(self.registry.table.slots@, handle as u64);
        if handle != 0 && p >= 0 {
            assert(self.registry.table.slots@[p] is Some);
        }
    }

    /// The VMAR reached through `handle`.
    pub fn lookup_vmar_from_handle(&self, handle: u32) -> (r: Result<&Vmar, Status>)
        requires
            self.wf(),
        ensures
            match vmar_for_handle(*self, handle) {
                Ok(v) => r matches Ok(x) && *x == v,
                Err(e) => r matches Err(x) && x == e,
            },
            vmar_for_handle(*self, handle) matches Ok(v) ==> v.wf() && (handle != 0 ==> v.id == handle as u64),
    {
        proof {
            self.lemma_found_wf(handle);
        }
        if handle == 0 {
            match &self.root {
                Some(r) => Ok(r),
                None => Err(RX_ERR_NOT_SUPPORTED),
            }
        } else {
            match self.registry.get(handle as u64) {
                Some(v) => Ok(v),
                None => Err(RX_ERR_INVALID_ARGS),
            }
        }
    }

    /// The VMAR reached through `handle`, for update.
    pub fn lookup_vmar_mut(&mut self, handle: u32) -> (r: Result<&mut Vmar, Status>)
        requires
            old(self).wf(),
        ensures
            match vmar_for_handle(*old(self), handle) {
                Ok(v) => r matches Ok(x) && *x == v && v.wf() && ((final(x).wf() && final(x).id == v.id)
                    ==> final(self).wf() && vmar_replaced(*old(self), *final(self), handle, *final(x))
                        && vmar_for_handle(*final(self), handle) == Ok::<Vmar, Status>(*final(x))),
                Err(e) => r matches Err(x) && x == e && *final(self) == *old(self),
            },
    {
        if handle == 0 {
            match &mut self.root {
                Some(r) => Ok(r),
                None => Err(RX_ERR_NOT_SUPPORTED),
            }
        } else {
            proof {
                lemma_slot_of(self.registry.table.slots@, handle as u64);
                let p = slot_of(self.registry.table.slots@, handle as u64);
                if p >= 0 {
                    crate::registry::lemma_update_keeps_slots(self.registry.table.slots@, p, handle as u64);
                }
            }
            match self.registry.table.get_mut(handle as u64) {
                Some(v) => Ok(v),
                None => Err(RX_ERR_INVALID_ARGS),
            }
        }
    }
}

/// `p2` is `p` with the child VMAR `id` at `[off, off + size)` recorded
/// among its children, and nothing else changed.
pub open spec fn with_child(p: Vmar, p2: Vmar, id: VmarId, off: u64, size: u64) -> bool {
    &&& p2.children@ == upsert(p.children@, off, VmarRegion::Vmar { id, base: off, size })
    &&& p2.id == p.id && p2.base == p.base && p2.size == p.size && p2.parent == p.parent
    &&& p2.flags == p.flags && p2.align_mask == p.align_mask && p2.ref_count == p.ref_count
}

/// Registry entry `e` is a fresh child VMAR `id` at `[off, off + size)` of
/// the VMAR `parent`, with the permissions `options` grant, no children,
/// page alignment and one reference.
pub open spec fn fresh_child(e: (u64, Vmar), id: VmarId, off: u64, size: u64, parent: VmarId, options: u32) -> bool {
    &&& e.0 == id && e.1.id == id && e.1.base == off && e.1.size == size && e.1.parent == Some(parent)
    &&& e.1.children@.len() == 0 && e.1.align_mask == 0xFFF && e.1.ref_count == 1
    &&& e.1.flags == (VmarFlags {
        can_map_read: options & vmar_options::CAN_MAP_READ != 0,
        can_map_write: options & vmar_options::CAN_MAP_WRITE != 0,
        can_map_execute: options & vmar_options::CAN_MAP_EXECUTE != 0,
        is_root: false,
        destroyed: false,
    })
}

/// Offset at which a child or mapping of `size` bytes goes in `p`: the
/// requested one with `SPECIFIC`, otherwise the first free page-aligned gap.
pub open spec fn placement(p: Vmar, options: u32, offset: u64, size: u64) -> Option<u64> {
    if options & vmar_options::SPECIFIC != 0 {
        Some(offset)
    } else {
        free_region_from(p.children@, 0, 0, size, PAGE_SIZE, p.size)
    }
}

/// Whether some child of `p` sits at offset `key`.
pub open spec fn has_child_at(p: Vmar, key: u64) -> bool {
    exists|i: int| 0 <= i < p.children@.len() && (#[trigger] p.children@[i]).0 == key
}

/// Outcome of allocating a child VMAR: `r` is the result and a name ending in `_after` is that state after the call.
pub open spec fn vmar_allocate_outcome(
    s: VmarSpace,
    space_after: VmarSpace,
    mem: UserMemory,
    mem_after: UserMemory,
    parent_handle: u32,
    options: u32,
    offset: u64,
    size: u64,
    child_addr_out: usize,
    r: SyscallRet,
) -> bool {
    if size == 0 || size & 0xFFF != 0 {
        r == -RX_ERR_INVALID_ARGS && space_after == s && mem_after == mem
    } else {
        match vmar_for_handle(s, parent_handle) {
            Err(e) => r == -e && space_after == s && mem_after == mem,
            Ok(p) => match placement(p, options, offset, size) {
                None => r == -RX_ERR_NO_RESOURCES && space_after == s && mem_after == mem,
                Some(off) => if off + size > p.size || off & 0xFFF != 0 {
                    r == -RX_ERR_INVALID_ARGS && space_after == s && mem_after == mem
                } else if has_child_at(p, off) {
                    r == -RX_ERR_ALREADY_EXISTS && space_after == s && mem_after == mem
                } else {
                    let id = s.next_id;
                    let t0 = s.registry.table.slots@;
                    let n = t0.len();
                    let t = space_after.registry.table.slots@;
                    let ph = slot_of(t0, parent_handle as u64);
                    let written = child_addr_out == 0 || mem.range_ok(child_addr_out, 8);
                    &&& space_after.next_id == id.wrapping_add(1)
                    &&& t.len() == n
                    &&& parent_handle == 0 ==> (space_after.root matches Some(p2) && with_child(p, p2, id, off, size))
                    &&& parent_handle != 0 ==> space_after.root == s.root
                    &&& match insert_pos(t0, s.registry.table.next_index as nat, id) {
                        None => {
                            &&& r == -RX_ERR_NO_RESOURCES && mem_after == mem
                            &&& forall|i: int| 0 <= i < n && (parent_handle == 0 || i != ph) ==> #[trigger] t[i] == t0[i]
                            &&& parent_handle != 0 ==> (t[ph] matches Some(e) && e.0 == parent_handle && with_child(p, e.1, id, off, size))
                        },
                        Some(pos) => {
                            let h = slot_of(ids_table(t0).update(pos, Some((id, ()))), id);
                            &&& forall|i: int| 0 <= i < n && (parent_handle == 0 || i != ph) && i != pos && (written || i != h)
                                ==> #[trigger] t[i] == t0[i]
                            &&& parent_handle != 0 && (written || ph != h) ==> (t[ph] matches Some(e) && e.0 == parent_handle
                                && with_child(p, e.1, id, off, size))
                            &&& (written || pos != h) ==> (t[pos] matches Some(e) && fresh_child(e, id, off, size, p.id, options))
                            &&& if written {
                                &&& r == (#[verifier::truncate] (id as u32)) as isize
                                &&& mem_after.bytes@ == stored_le(mem.bytes@, mem.base, child_addr_out, off, 8)
                            } else {
                                r == -RX_ERR_INVALID_ARGS && mem_after == mem && t[h] is None
                            }
                        },
                    }
                },
            },
        }
    }
}

/// Allocate a child VMAR of `size` bytes in the VMAR reached through
/// `parent_handle`; its offset is written as a `u64` to `child_addr_out`
/// when that is non-zero.  Returns the child's handle value.
pub fn sys_vmar_allocate_impl(
    space: &mut VmarSpace,
    mem: &mut UserMemory,
    parent_handle: u32,
    options: u32,
    offset: u64,
    size: u64,
    child_addr_out: usize,
) -> (r: SyscallRet)
    requires
        old(space).wf(),
        vmar_for_handle(*old(space), parent_handle) matches Ok(p) ==> (options & vmar_options::SPECIFIC == 0
            ==> free_search_ok(p.children@, size, PAGE_SIZE)) && (options & vmar_options::SPECIFIC != 0
            ==> offset + size <= u64::MAX),
    ensures
        final(space).wf(),
        vmar_allocate_outcome(*old(space), *final(space), *old(mem), *final(mem), parent_handle, options, offset, size,
            child_addr_out, r),
{
    if size == 0 {
        return err_to_ret(RX_ERR_INVALID_ARGS);
    }
    if size & 0xFFF != 0 {
        return err_to_ret(RX_ERR_INVALID_ARGS);
    }
    let id = space.next_id;
    let actual_offset = {
        let parent = match space.lookup_vmar_from_handle(parent_handle) {
            Ok(v) => v,
            Err(err) => {
                return err_to_ret(err);
            },
        };
        let actual_offset = if options & vmar_options::SPECIFIC != 0 {
            offset
        } else {
            match parent.find_free_region(size, PAGE_SIZE) {
                Some(off) => off,
                None => {
                    return err_to_ret(RX_ERR_NO_RESOURCES);
                },
            }
        };
        proof {
            if options & vmar_options::SPECIFIC == 0 {
                lemma_free_region_fits(parent.children@, 0, 0, size, PAGE_SIZE, parent.size);
            }
        }
        if actual_offset + size > parent.size || actual_offset & 0xFFF != 0 {
            return err_to_ret(RX_ERR_INVALID_ARGS);
        }
        if parent.find_key(actual_offset).is_some() {
            return err_to_ret(RX_ERR_ALREADY_EXISTS);
        }
        actual_offset
    };
    let ghost s0 = *space;
    let child = {
        let parent = match space.lookup_vmar_mut(parent_handle) {
            Ok(v) => v,
            Err(err) => {
                return err_to_ret(err);
            },
        };
        match Vmar::new_child(parent, id, actual_offset, size, options, 0xFFF) {
            Ok(c) => c,
            Err(err) => {
                return err_to_ret(err);
            },
        }
    };
    let ghost s1 = *space;
    proof {
        let t0 = s0.registry.table.slots@;
        let t1 = s1.registry.table.slots@;
        let next = s0.registry.table.next_index as nat;
        if parent_handle != 0 {
            lemma_slot_of(t0, parent_handle as u64);
            let ph = slot_of(t0, parent_handle as u64);
            assert(t0[ph] is Some);
            assert(free_pattern(t1) =~= free_pattern(t0));
            assert(ids_table(t1) =~= ids_table(t0));
        } else {
            assert(t1 =~= t0);
        }
        lemma_insert_pos_in(t0, next, id);
        lemma_insert_pos_in(t1, next, id);
    }
    space.next_id = space.next_id.wrapping_add(1);
    let actual_offset = child.base;
    let child_id = child.id;
    let ghost c = child;
    match space.registry.insert(child) {
        Ok(()) => {},
        Err(err) => {
            return err_to_ret(err);
        },
    }
    let ghost t2 = space.registry.table.slots@;
    proof {
        let t1 = s1.registry.table.slots@;
        let next = s0.registry.table.next_index as nat;
        lemma_insert_pos_free(t1, next, id);
        let pos = insert_pos(t1, next, id)->0;
        assert(ids_table(t2) =~= ids_table(s0.registry.table.slots@).update(pos, Some((id, ()))));
        lemma_slot_of_ids(t2, id);
        lemma_slot_of(t2, id);
        assert(crate::registry::holds(t2, pos, id));
    }
    if child_addr_out != 0 {
        match mem.write_le(child_addr_out, actual_offset, 8) {
            Ok(()) => {},
            Err(err) => {
                let _ = space.registry.remove(child_id);
                return err_to_ret(err);
            },
        }
    }
    ok_to_ret((#[verifier::truncate] (child_id as u32)) as usize)
}

/// Law: allocating a page-multiple size with no placement request and no
/// offset to store succeeds when the parent, whose children lie one after
/// the other inside it and are not empty, has a free page-aligned gap of
/// that size, the registry a free slot, and the next id is not registered
/// yet: the result is the new id as a handle value, and a lookup of the id
/// finds a child of the parent at the lowest such gap, which the parent
/// records.
pub proof fn lemma_allocate_succeeds(
    s: VmarSpace,
    s2: VmarSpace,
    mem: UserMemory,
    mem2: UserMemory,
    parent_handle: u32,
    options: u32,
    offset: u64,
    size: u64,
    r: SyscallRet,
    gap: u64,
    free: int,
)
    requires
        s.wf(),
        vmar_allocate_outcome(s, s2, mem, mem2, parent_handle, options, offset, size, 0, r),
        size > 0,
        size & 0xFFF == 0,
        options & vmar_options::SPECIFIC == 0,
        vmar_for_handle(s, parent_handle) matches Ok(p) && {
            &&& ordered_disjoint(p.children@)
            &&& (forall|j: int| 0 <= j < p.children@.len() ==> region_end(#[trigger] p.children@[j]) <= p.size)
            &&& (forall|j: int| 0 <= j < p.children@.len() ==> region_size((#[trigger] p.children@[j]).1) > 0)
            &&& free_search_ok(p.children@, size, PAGE_SIZE)
            &&& aligned_to(gap, PAGE_SIZE)
            &&& gap + size <= p.size
            &&& forall|j: int| 0 <= j < p.children@.len() ==> !overlaps(#[trigger] p.children@[j], gap as int, gap + size)
        },
        0 <= free < s.registry.table.slots@.len(),
        s.registry.table.slots@[free] is None,
        s.registry.find(s.next_id) is None,
    ensures
        ({
            let p = vmar_for_handle(s, parent_handle)->Ok_0;
            let id = s.next_id;
            let off = free_region_from(p.children@, 0, 0, size, PAGE_SIZE, p.size)->0;
            &&& free_region_from(p.children@, 0, 0, size, PAGE_SIZE, p.size) is Some
            &&& off <= gap
            &&& off & 0xFFF == 0
            &&& off + size <= p.size
            &&& forall|j: int| 0 <= j < p.children@.len() ==> !overlaps(#[trigger] p.children@[j], off as int, off + size)
            &&& r == (#[verifier::truncate] (id as u32)) as isize
            &&& s2.registry.find(id) matches Some(c) && c.id == id && c.base == off && c.size == size
                && c.parent == Some(p.id) && c.children@.len() == 0
            &&& parent_handle == 0 ==> (s2.root matches Some(p2) && with_child(p, p2, id, off, size))
            &&& parent_handle != 0 ==> (s2.registry.find(parent_handle as u64) matches Some(p2) && with_child(p, p2, id, off, size))
        }),
{
    let p = vmar_for_handle(s, parent_handle)->Ok_0;
    let id = s.next_id;
    let t0 = s.registry.table.slots@;
    let t = s2.registry.table.slots@;
    let n = t0.len();
    s.lemma_found_wf(parent_handle);
    assert(is_pow2(PAGE_SIZE)) by (bit_vector);
    lemma_free_region_is_free(p, size, PAGE_SIZE);
    lemma_gap_scan_least(p.children@, 0, 0, size, PAGE_SIZE, p.size);
    assert(free_region_from(p.children@, 0, 0, size, PAGE_SIZE, p.size) is Some);
    let off = free_region_from(p.children@, 0, 0, size, PAGE_SIZE, p.size)->0;
    if off > gap {
        assert(aligned_to(gap, PAGE_SIZE) && gap < off);
    }
    assert(!has_child_at(p, off)) by {
        if has_child_at(p, off) {
            let j = choose|j: int| 0 <= j < p.children@.len() && (#[trigger] p.children@[j]).0 == off;
            assert(overlaps(p.children@[j], off as int, off + size));
        }
    }
    lemma_insert_pos_some(t0, s.registry.table.next_index as nat, id, free);
    lemma_insert_pos_free(t0, s.registry.table.next_index as nat, id);
    let pos = insert_pos(t0, s.registry.table.next_index as nat, id)->0;
    let ph = slot_of(t0, parent_handle as u64);
    lemma_slot_of(t0, id);
    lemma_slot_of(t0, parent_handle as u64);
    if parent_handle != 0 {
        assert(t0[ph] is Some);
        assert(parent_handle as u64 != id);
    }
    assert(placement(p, options, offset, size) == Some(off));
    assert(off & 0xFFF == 0);
    assert forall|k: int| 0 <= k < n && k != pos implies !#[trigger] holds(t, k, id) by {
        assert(!holds(t0, k, id));
        if parent_handle == 0 || k != ph {
            assert(t[k] == t0[k]);
        } else {
            assert(t[ph] matches Some(e) && e.0 == parent_handle);
        }
    }
    lemma_slot_of_only(t, pos, id);
    if parent_handle != 0 {
        let pid = parent_handle as u64;
        let t1 = t0.update(ph, t[ph]);
        assert(t =~= t1.update(pos, t[pos]));
        lemma_lookup_update(t0, ph, t[ph], pid);
        lemma_lookup_update(t1, pos, t[pos], pid);
        lemma_slot_of(t1, pid);
    }
}

/// The two VMAR states hold the same VMARs.
pub open spec fn same_space(a: VmarSpace, b: VmarSpace) -> bool {
    &&& a.root == b.root
    &&& a.next_id == b.next_id
    &&& a.registry.table.slots@ =~= b.registry.table.slots@
    &&& a.registry.table.count == b.registry.table.count
    &&& a.registry.table.next_index == b.registry.table.next_index
}

/// Syscall return value of an outcome: 0 on success, the negated status
/// on failure.
pub open spec fn ret_of(r: Result<(), Status>) -> int {
    match r {
        Ok(()) => 0,
        Err(e) => -e,
    }
}

/// Outcome of mapping `len` bytes of a VMO into a VMAR: `r` is the result and a name ending in `_after` is that state after the call.
pub open spec fn vmar_map_outcome(
    space: VmarSpace,
    space_after: VmarSpace,
    vmos: VmoSubsystem,
    handles: HandleTable,
    mem: UserMemory,
    mem_after: UserMemory,
    vmar_handle: u32,
    options: u32,
    vmar_offset: u64,
    vmo_handle: u32,
    vmo_offset: u64,
    len: u64,
    mapped_addr_out: usize,
    r: SyscallRet,
) -> bool {
    &&& mem_after.base == mem.base
    &&& ({
        let s = space;
        let unchanged = space_after == s && mem_after == mem;
        let prot = MemProt {
            read: options & vmar_options::PERM_READ != 0,
            write: options & vmar_options::PERM_WRITE != 0,
            execute: options & vmar_options::PERM_EXECUTE != 0,
        };
        if len == 0 || len & 0xFFF != 0 {
            r == -RX_ERR_INVALID_ARGS && unchanged
        } else {
            match vmar_for_handle(s, vmar_handle) {
                Err(e) => r == -e && unchanged,
                Ok(v) => match vmo_for_handle(handles, vmos.registry, vmo_handle, RIGHTS_READ) {
                    Err(_) => r == -RX_ERR_NOT_SUPPORTED && unchanged,
                    Ok(h) => {
                        let vmo = vmos.registry.find(h.id)->0;
                        let v2 = vmar_for_handle(space_after, vmar_handle)->Ok_0;
                        match map_result(v, vmo.size as u64, vmar_offset, vmo_offset, len, prot, options) {
                            Err(e) => r == -e && same_space(space_after, s) && mem_after == mem,
                            Ok(addr) => {
                                let mapped = upsert(v.children@, addr, VmarRegion::Mapping { vmo_id: h.id, vmo_offset, size: len, prot });
                                &&& vmar_for_handle(space_after, vmar_handle) is Ok
                                &&& vmar_replaced(s, space_after, vmar_handle, v2)
                                &&& v2.id == v.id && v2.size == v.size && v2.flags == v.flags
                                &&& if mapped_addr_out != 0 && !mem.range_ok(mapped_addr_out, 8) {
                                    &&& r == -RX_ERR_INVALID_ARGS
                                    &&& v2.children@ == unmapped(mapped, addr as int, addr + len)
                                    &&& mem_after == mem
                                } else {
                                    &&& r == (addr as usize) as isize
                                    &&& v2.children@ == mapped
                                    &&& mem_after.bytes@ == stored_le(mem.bytes@, mem.base, mapped_addr_out, addr, 8)
                                }
                            },
                        }
                    },
                },
            }
        }
    })
}

/// Map `len` bytes (a non-zero page multiple) of the VMO behind
/// `vmo_handle` (which needs the read right; any failure to find it is
/// reported as not supported) at `vmo_offset` into the VMAR behind
/// `vmar_handle`, with the protection the option bits give, at
/// `vmar_offset` (with the specific option) or in the first free region;
/// the mapped offset is stored at `mapped_addr_out` when that is non-zero,
/// and the mapping is undone when that store fails.
pub fn sys_vmar_map_impl(
    space: &mut VmarSpace,
    vmos: &VmoSubsystem,
    handles: &HandleTable,
    mem: &mut UserMemory,
    vmar_handle: u32,
    options: u32,
    vmar_offset: u64,
    vmo_handle: u32,
    vmo_offset: u64,
    len: u64,
    mapped_addr_out: usize,
) -> (r: SyscallRet)
    requires
        old(space).wf(),
        vmos.registry.wf(),
        handles.wf(),
        len + PAGE_SIZE <= u64::MAX,
        vmo_offset + len <= u64::MAX,
        vmar_for_handle(*old(space), vmar_handle) matches Ok(v) ==> (options & vmar_options::SPECIFIC == 0
            ==> free_search_ok(v.children@, align_up(len, PAGE_SIZE), PAGE_SIZE)) && (options & vmar_options::SPECIFIC != 0
            ==> vmar_offset + align_up(len, PAGE_SIZE) <= u64::MAX),
    ensures
        final(space).wf(),
        vmar_map_outcome(*old(space), *final(space), *vmos, *handles, *old(mem), *final(mem), vmar_handle,
            options, vmar_offset, vmo_handle, vmo_offset, len, mapped_addr_out, r),
{
    proof {
        lemma_slot_of(old(space).registry.table.slots@, vmar_handle as u64);
    }
    if len == 0 {
        return err_to_ret(RX_ERR_INVALID_ARGS);
    }
    if len & 0xFFF != 0 {
        return err_to_ret(RX_ERR_INVALID_ARGS);
    }
    let perm_flags = options & vmar_options::PERM_FLAGS;
    assert(perm_flags & !vmar_options::PERM_FLAGS == 0) by (bit_vector)
        requires
            perm_flags == options & vmar_options::PERM_FLAGS,
    ;
    if perm_flags & !vmar_options::PERM_FLAGS != 0 {
        return err_to_ret(RX_ERR_INVALID_ARGS);
    }
    match space.lookup_vmar_from_handle(vmar_handle) {
        Ok(_) => {},
        Err(err) => {
            return err_to_ret(err);
        },
    }
    let prot = vmar_options::perm_to_prot(options);
    assert(prot == MemProt {
        read: options & vmar_options::PERM_READ != 0,
        write: options & vmar_options::PERM_WRITE != 0,
        execute: options & vmar_options::PERM_EXECUTE != 0,
    });
    let vmo_handle_obj = match crate::vmo::lookup_vmo_from_handle(handles, &vmos.registry, vmo_handle, RIGHTS_READ) {
        Ok(h) => h,
        Err(_) => {
            return err_to_ret(RX_ERR_NOT_SUPPORTED);
        },
    };
    let vmo_size: u64 = match vmos.registry.get(vmo_handle_obj.id) {
        Some(vmo) => vmo.size as u64,
        None => {
            return err_to_ret(RX_ERR_NOT_SUPPORTED);
        },
    };
    let vmar = match space.lookup_vmar_mut(vmar_handle) {
        Ok(v) => v,
        Err(err) => {
            return err_to_ret(err);
        },
    };
    let ghost v0 = *vmar;
    let mr = vmar.map(vmo_handle_obj.id, vmo_size, vmar_offset, vmo_offset, len, prot, options);
    let mapped_addr = match mr {
        Ok(addr) => addr,
        Err(err) => {
            return err_to_ret(err);
        },
    };
    match mem.store_opt(mapped_addr_out, mapped_addr, 8) {
        Ok(()) => {},
        Err(err) => {
            proof {
                let p = lower_bound(v0.children@, mapped_addr, 0);
                lemma_lower_bound(v0.children@, mapped_addr, 0);
                assert(align_up(len, PAGE_SIZE) == len) by (bit_vector)
                    requires
                        len & 0xFFF == 0,
                        len + 4096 <= u64::MAX,
                        PAGE_SIZE == 4096,
                ;
                assert(vmar.children@[p] == (mapped_addr, VmarRegion::Mapping { vmo_id: vmo_handle_obj.id, vmo_offset, size: len, prot }));
            }
            let _ = vmar.unmap(mapped_addr, len);
            return err_to_ret(err);
        },
    }
    proof {
        assert(align_up(len, PAGE_SIZE) == len) by (bit_vector)
            requires
                len & 0xFFF == 0,
                len + 4096 <= u64::MAX,
                PAGE_SIZE == 4096,
        ;
    }
    ok_to_ret(#[verifier::truncate] (mapped_addr as usize))
}

/// Outcome of unmapping `len` bytes at `addr` in a VMAR: `r` is the result and a name ending in `_after` is that state after the call.
pub open spec fn vmar_unmap_outcome(
    space: VmarSpace,
    space_after: VmarSpace,
    vmar_handle: u32,
    addr: u64,
    len: u64,
    r: SyscallRet,
) -> bool {
    &&& ({
        let s = space;
        if len == 0 || len & 0xFFF != 0 || addr & 0xFFF != 0 {
            r == -RX_ERR_INVALID_ARGS && space_after == s
        } else {
            match vmar_for_handle(s, vmar_handle) {
                Err(e) => r == -e && space_after == s,
                Ok(v) => if v.flags.destroyed {
                    r == -RX_ERR_BAD_STATE && same_space(space_after, s)
                } else {
                    r == 0 && exists|v2: Vmar| vmar_replaced(s, space_after, vmar_handle, v2)
                        && v2.children@ == unmapped(v.children@, addr as int, addr + len) && v2.size == v.size
                },
            }
        }
    })
}

/// Unmap `[addr, addr + len)` in the VMAR reached through `vmar_handle`.
pub fn sys_vmar_unmap_impl(space: &mut VmarSpace, vmar_handle: u32, addr: u64, len: u64) -> (r: SyscallRet)
    requires
        old(space).wf(),
        addr + len <= u64::MAX,
    ensures
        final(space).wf(),
        vmar_unmap_outcome(*old(space), *final(space), vmar_handle, addr, len, r),
{
    proof {
        lemma_slot_of(old(space).registry.table.slots@, vmar_handle as u64);
    }
    if len == 0 {
        return err_to_ret(RX_ERR_INVALID_ARGS);
    }
    if len & 0xFFF != 0 || addr & 0xFFF != 0 {
        return err_to_ret(RX_ERR_INVALID_ARGS);
    }
    let vmar = match space.lookup_vmar_mut(vmar_handle) {
        Ok(v) => v,
        Err(err) => {
            return err_to_ret(err);
        },
    };
    match vmar.unmap(addr, len) {
        Ok(()) => ok_to_ret(0),
        Err(err) => err_to_ret(err),
    }
}

/// Outcome of changing the protection of `len` bytes at `addr` in a VMAR: `r` is the result and a name ending in `_after` is that state after the call.
pub open spec fn vmar_protect_outcome(
    space: VmarSpace,
    space_after: VmarSpace,
    vmar_handle: u32,
    options: u32,
    addr: u64,
    len: u64,
    r: SyscallRet,
) -> bool {
    &&& ({
        let s = space;
        let prot = MemProt {
            read: options & vmar_options::PERM_READ != 0,
            write: options & vmar_options::PERM_WRITE != 0,
            execute: options & vmar_options::PERM_EXECUTE != 0,
        };
        if len == 0 || len & 0xFFF != 0 || addr & 0xFFF != 0 {
            r == -RX_ERR_INVALID_ARGS && space_after == s
        } else {
            match vmar_for_handle(s, vmar_handle) {
                Err(e) => r == -e && space_after == s,
                Ok(v) => {
                    let v2 = vmar_for_handle(space_after, vmar_handle)->Ok_0;
                    let pr = if r == 0 { Ok::<(), Status>(()) } else { Err::<(), Status>((-r) as i32) };
                    &&& vmar_for_handle(space_after, vmar_handle) is Ok
                    &&& protect_post(v, v2, addr, prot, pr)
                    &&& r == ret_of(pr)
                    &&& pr is Err ==> same_space(space_after, s)
                    &&& pr is Ok ==> vmar_replaced(s, space_after, vmar_handle, v2)
                },
            }
        }
    })
}

/// Change the protection of the mapping at `addr` in the VMAR reached
/// through `vmar_handle` to the permissions in `options`.
pub fn sys_vmar_protect_impl(space: &mut VmarSpace, vmar_handle: u32, options: u32, addr: u64, len: u64) -> (r: SyscallRet)
    requires
        old(space).wf(),
    ensures
        final(space).wf(),
        vmar_protect_outcome(*old(space), *final(space), vmar_handle, options, addr, len, r),
{
    proof {
        lemma_slot_of(old(space).registry.table.slots@, vmar_handle as u64);
    }
    if len == 0 {
        return err_to_ret(RX_ERR_INVALID_ARGS);
    }
    if len & 0xFFF != 0 || addr & 0xFFF != 0 {
        return err_to_ret(RX_ERR_INVALID_ARGS);
    }
    let prot = vmar_options::perm_to_prot(options);
    assert(prot == MemProt {
        read: options & vmar_options::PERM_READ != 0,
        write: options & vmar_options::PERM_WRITE != 0,
        execute: options & vmar_options::PERM_EXECUTE != 0,
    });
    let vmar = match space.lookup_vmar_mut(vmar_handle) {
        Ok(v) => v,
        Err(err) => {
            return err_to_ret(err);
        },
    };
    let ghost v0 = *vmar;
    let pr = vmar.protect(addr, len, prot);
    let ghost v2 = *vmar;
    proof {
        assert(protect_post(v0, v2, addr, prot, pr));
        assert(vmar_replaced(*old(space), *space, vmar_handle, v2));
        if pr is Err {
            assert(same_space(*space, *old(space)));
        }
    }
    let r = match pr {
        Ok(()) => ok_to_ret(0),
        Err(err) => err_to_ret(err),
    };
    proof {
        assert(r == ret_of(pr));
        assert(vmar_for_handle(*old(space), vmar_handle) == Ok::<Vmar, Status>(v0));
        assert(vmar_for_handle(*space, vmar_handle) == Ok::<Vmar, Status>(v2));
    }
    r
}

/// Destroy the VMAR reached through `vmar_handle` and drop it from the
/// registry; root VMARs cannot be destroyed.
pub fn sys_vmar_destroy_impl(space: &mut VmarSpace, vmar_handle: u32) -> (r: SyscallRet)
    requires
        old(space).wf(),
    ensures
        final(space).wf(),
        ({
            let s = *old(space);
            match vmar_for_handle(s, vmar_handle) {
                Err(e) => r == -e && *final(space) == s,
                Ok(v) => if v.flags.is_root {
                    r == -RX_ERR_ACCESS_DENIED && *final(space) == s
                } else {
                    let h = slot_of(s.registry.table.slots@, v.id);
                    &&& r == 0
                    &&& final(space).root == s.root
                    &&& final(space).registry.table.slots@ == if h >= 0 {
                        s.registry.table.slots@.update(h, None)
                    } else {
                        s.registry.table.slots@
                    }
                },
            }
        }),
{
    proof {
        lemma_slot_of(old(space).registry.table.slots@, vmar_handle as u64);
    }
    let id = match space.lookup_vmar_from_handle(vmar_handle) {
        Ok(v) => {
            if v.flags.is_root {
                return err_to_ret(RX_ERR_ACCESS_DENIED);
            }
            v.id()
        },
        Err(err) => {
            return err_to_ret(err);
        },
    };
    let _ = space.registry.remove(id);
    ok_to_ret(0)
}

/// VMAR subsystem statistics.
#[derive(Clone, Copy, Debug)]
pub struct VmarStats {
    pub total_vmars: usize,
    pub total_mappings: usize,
    pub mapped_bytes: u64,
}

/// Current VMAR statistics.
pub fn get_stats(space: &VmarSpace) -> (st: VmarStats)
    ensures
        st.total_vmars == space.registry.table.count,
        st.total_mappings == 0,
        st.mapped_bytes == 0,
{
    VmarStats { total_vmars: space.registry.count(), total_mappings: 0, mapped_bytes: 0 }
}

/// Base of the root user VMAR.
pub const ROOT_USER_VMAR_BASE: u64 = 0x1000;
/// Size of the root user VMAR.
pub const ROOT_USER_VMAR_SIZE: u64 = 0x8000_0000;

/// Create the root user VMAR under the next VMAR id.
pub fn init_root_user_vmar(space: &mut VmarSpace)
    requires
        old(space).wf(),
    ensures
        final(space).wf(),
        final(space).registry == old(space).registry,
        final(space).next_id == old(space).next_id.wrapping_add(1),
        final(space).root matches Some(r) && r.id == old(space).next_id && r.base == ROOT_USER_VMAR_BASE
            && r.size == ROOT_USER_VMAR_SIZE && r.flags.is_root && r.children@.len() == 0,
{
    let id = space.alloc_id();
    space.root = Some(Vmar::new_root(id, ROOT_USER_VMAR_BASE, ROOT_USER_VMAR_SIZE));
}

/// Initialize the VMAR subsystem: set up the root user VMAR.
pub fn init(space: &mut VmarSpace)
    requires
        old(space).wf(),
    ensures
        final(space).wf(),
        final(space).registry == old(space).registry,
        final(space).next_id == old(space).next_id.wrapping_add(1),
        final(space).root matches Some(r) && r.id == old(space).next_id && r.base == ROOT_USER_VMAR_BASE
            && r.size == ROOT_USER_VMAR_SIZE && r.flags.is_root && r.children@.len() == 0,
{
    init_root_user_vmar(space);
}

} // verus!

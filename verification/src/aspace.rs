//! A hardware address space as page mappings, and the VMAR operations that
//! carry a mapping change through to it.
use vstd::prelude::*;
use std::collections::BTreeMap;
use crate::status::{Status, RX_ERR_ALREADY_EXISTS};
use crate::vmar::{
    MemProt, PAGE_SIZE, Vmar, VmarRegion, align_up, can_map_spec, free_search_ok, map_post, map_result, perm_of,
    protect_post, unmapped, vmar_options,
};

verus! {

/// Address of page `i` of a run starting at `vaddr`.
pub open spec fn page_at(vaddr: u64, i: int) -> int {
    vaddr + i * PAGE_SIZE
}

/// Whether `k` is the address of one of the first `n` pages from `vaddr`.
pub open spec fn in_run(k: u64, vaddr: u64, n: int) -> bool {
    vaddr <= k < vaddr + n * PAGE_SIZE && (k - vaddr) % (PAGE_SIZE as int) == 0
}

/// The pages of `m` outside the run of `n` pages from `vaddr`.
pub open spec fn without_run(m: Map<u64, (u64, MemProt)>, vaddr: u64, n: int) -> Map<u64, (u64, MemProt)> {
    m.remove_keys(Set::new(|k: u64| in_run(k, vaddr, n)))
}

/// `m` with the run of `n` pages from `vaddr` mapped to the physical pages
/// from `paddr` on, with protection `prot`.
pub open spec fn with_run(m: Map<u64, (u64, MemProt)>, vaddr: u64, paddr: u64, n: int, prot: MemProt) -> Map<u64, (u64, MemProt)> {
    Map::new(
        |k: u64| m.contains_key(k) || in_run(k, vaddr, n),
        |k: u64| if in_run(k, vaddr, n) { ((paddr + (k - vaddr)) as u64, prot) } else { m[k] },
    )
}

/// `m` with every mapped page of the run of `n` pages from `vaddr` given
/// protection `prot`.
pub open spec fn reprotected(m: Map<u64, (u64, MemProt)>, vaddr: u64, n: int, prot: MemProt) -> Map<u64, (u64, MemProt)> {
    Map::new(
        |k: u64| m.contains_key(k),
        |k: u64| if in_run(k, vaddr, n) { (m[k].0, prot) } else { m[k] },
    )
}

/// Whether a run of `n` pages from `vaddr` stays below the top of the
/// address space.
pub open spec fn run_fits(vaddr: u64, n: int) -> bool {
    n > 0 ==> vaddr + (n - 1) * PAGE_SIZE <= u64::MAX
}

/// A hardware address space: the physical page and protection of each
/// mapped virtual page.
pub struct AddressSpace {
    pub pages: BTreeMap<u64, (u64, MemProt)>,
}

impl AddressSpace {
    /// The mapped pages, by virtual address.
    pub open spec fn mappings(&self) -> Map<u64, (u64, MemProt)> {
        self.pages@
    }

    /// An empty address space.
    pub fn new() -> (a: AddressSpace)
        ensures
            a.mappings() == Map::<u64, (u64, MemProt)>::empty(),
    {
        AddressSpace { pages: BTreeMap::new() }
    }

    /// Map `count` pages from `vaddr` to the physical pages from `paddr`.
    /// A run that meets a page already mapped is refused, and nothing
    /// changes.
    pub fn map(&mut self, vaddr: u64, paddr: u64, count: u64, prot: MemProt) -> (r: Result<(), Status>)
        requires
            run_fits(vaddr, count as int),
            run_fits(paddr, count as int),
        ensures
            (exists|k: u64| #[trigger] old(self).mappings().contains_key(k) && in_run(k, vaddr, count as int))
                ==> r == Err::<(), Status>(RX_ERR_ALREADY_EXISTS) && final(self).mappings() == old(self).mappings(),
            !(exists|k: u64| #[trigger] old(self).mappings().contains_key(k) && in_run(k, vaddr, count as int))
                ==> r is Ok && final(self).mappings() == with_run(old(self).mappings(), vaddr, paddr, count as int, prot),
    {
        let mut i: u64 = 0;
        while i < count
            invariant
                i <= count,
                run_fits(vaddr, count as int),
                self.mappings() == old(self).mappings(),
                forall|k: u64| #[trigger] old(self).mappings().contains_key(k) ==> !in_run(k, vaddr, i as int),
            decreases count - i,
        {
            let a = vaddr + i * PAGE_SIZE;
            if self.pages.contains_key(&a) {
                proof {
                    assert(in_run(a, vaddr, count as int));
                }
                return Err(RX_ERR_ALREADY_EXISTS);
            }
            proof {
                assert forall|k: u64| #[trigger] old(self).mappings().contains_key(k) implies !in_run(k, vaddr, i + 1) by {
                    assert(!in_run(k, vaddr, i as int));
                    if in_run(k, vaddr, i + 1) {
                        assert(k == a);
                    }
                }
            }
            i = i + 1;
        }
        let mut j: u64 = 0;
        while j < count
            invariant
                j <= count,
                run_fits(vaddr, count as int),
                run_fits(paddr, count as int),
                forall|k: u64| #[trigger] old(self).mappings().contains_key(k) ==> !in_run(k, vaddr, count as int),
                self.mappings() == with_run(old(self).mappings(), vaddr, paddr, j as int, prot),
            decreases count - j,
        {
            let a = vaddr + j * PAGE_SIZE;
            let p = paddr + j * PAGE_SIZE;
            self.pages.insert(a, (p, prot));
            proof {
                assert forall|k: u64| in_run(k, vaddr, j + 1) <==> (in_run(k, vaddr, j as int) || k == a) by {}
                assert(self.mappings() =~= with_run(old(self).mappings(), vaddr, paddr, j + 1, prot));
            }
            j = j + 1;
        }
        Ok(())
    }

    /// Unmap every mapped page of the run of `count` pages from `vaddr`.
    pub fn unmap(&mut self, vaddr: u64, count: u64) -> (r: Result<(), Status>)
        requires
            run_fits(vaddr, count as int),
        ensures
            r is Ok,
            final(self).mappings() == without_run(old(self).mappings(), vaddr, count as int),
    {
        let mut i: u64 = 0;
        while i < count
            invariant
                i <= count,
                run_fits(vaddr, count as int),
                self.mappings() == without_run(old(self).mappings(), vaddr, i as int),
            decreases count - i,
        {
            let a = vaddr + i * PAGE_SIZE;
            self.pages.remove(&a);
            proof {
                assert forall|k: u64| in_run(k, vaddr, i + 1) <==> (in_run(k, vaddr, i as int) || k == a) by {}
                assert(self.mappings() =~= without_run(old(self).mappings(), vaddr, i + 1));
            }
            i = i + 1;
        }
        Ok(())
    }

    /// Give every mapped page of the run of `count` pages from `vaddr`
    /// protection `prot`.
    pub fn protect(&mut self, vaddr: u64, count: u64, prot: MemProt) -> (r: Result<(), Status>)
        requires
            run_fits(vaddr, count as int),
        ensures
            r is Ok,
            final(self).mappings() == reprotected(old(self).mappings(), vaddr, count as int, prot),
    {
        let mut i: u64 = 0;
        while i < count
            invariant
                i <= count,
                run_fits(vaddr, count as int),
                self.mappings() == reprotected(old(self).mappings(), vaddr, i as int, prot),
            decreases count - i,
        {
            let a = vaddr + i * PAGE_SIZE;
            let cur = match self.pages.get(&a) {
                Some(e) => Some(e.0),
                None => None,
            };
            if let Some(p) = cur {
                self.pages.insert(a, (p, prot));
            }
            proof {
                assert forall|k: u64| in_run(k, vaddr, i + 1) <==> (in_run(k, vaddr, i as int) || k == a) by {}
                assert(self.mappings() =~= reprotected(old(self).mappings(), vaddr, i + 1, prot));
            }
            i = i + 1;
        }
        Ok(())
    }

    /// Flush the translation caches for `len` bytes from `vaddr`: nothing
    /// is cached in this model.
    pub fn flush_tlb(&self, vaddr: u64, len: u64) {
    }
}


/// Pages needed to hold `size` bytes.
pub open spec fn pages_for(size: u64) -> int {
    (size + PAGE_SIZE - 1) / (PAGE_SIZE as int)
}

/// Physical page behind page `i` of a mapping that starts `vmo_offset`
/// bytes into a VMO with physical pages `pages` (`None` when the page is
/// not committed).
pub open spec fn backing(pages: Seq<Option<u64>>, vmo_offset: u64, i: int) -> Option<u64> {
    let idx = (vmo_offset + i * PAGE_SIZE) / (PAGE_SIZE as int);
    if 0 <= idx < pages.len() { pages[idx] } else { None }
}

/// `m` after the committed pages among the first `n` pages of a mapping at
/// `vaddr` are entered with protection `prot`.
pub open spec fn placed(
    m: Map<u64, (u64, MemProt)>,
    pages: Seq<Option<u64>>,
    vmo_offset: u64,
    vaddr: u64,
    n: int,
    prot: MemProt,
) -> Map<u64, (u64, MemProt)> {
    Map::new(
        |k: u64| m.contains_key(k) || (in_run(k, vaddr, n) && backing(pages, vmo_offset, (k - vaddr) / (PAGE_SIZE as int)) is Some),
        |k: u64| if in_run(k, vaddr, n) && backing(pages, vmo_offset, (k - vaddr) / (PAGE_SIZE as int)) is Some {
            (backing(pages, vmo_offset, (k - vaddr) / (PAGE_SIZE as int))->0, prot)
        } else {
            m[k]
        },
    )
}

/// Whether page `i` of a mapping at `vaddr` is committed but its address
/// is already mapped in `m`.
pub open spec fn clash(m: Map<u64, (u64, MemProt)>, pages: Seq<Option<u64>>, vmo_offset: u64, vaddr: u64, i: int) -> bool {
    backing(pages, vmo_offset, i) is Some && m.contains_key(page_at(vaddr, i) as u64)
}

/// Whether `Vmar::protect` at `offset` with `prot` succeeds on `v`.
pub open spec fn protect_succeeds(v: Vmar, offset: u64, prot: MemProt) -> bool {
    &&& !v.flags.destroyed
    &&& can_map_spec(v.flags, perm_of(prot))
    &&& exists|i: int| 0 <= i < v.children@.len() && (#[trigger] v.children@[i]).0 == offset && v.children@[i].1 is Mapping
}

impl Vmar {
    /// Map `size` bytes of the VMO `vmo_id` (of `vmo_size` bytes, with
    /// physical pages `vmo_pages`) from `vmo_offset` into this VMAR, as
    /// `map` does, then enter its committed pages into `aspace` at the
    /// mapping's address, one page at a time with protection `prot`;
    /// uncommitted pages are left to be faulted in.  A page whose address
    /// is already mapped stops the walk: the addresses of the pages before
    /// it are unmapped again and the error is returned, the VMAR keeping
    /// the mapping.  On success the mapping's address is returned.
    pub fn map_to_aspace(
        &mut self,
        aspace: &mut AddressSpace,
        vmo_id: u64,
        vmo_size: u64,
        vmo_pages: &Vec<Option<u64>>,
        vmar_offset: u64,
        vmo_offset: u64,
        size: u64,
        prot: MemProt,
        options: u32,
    ) -> (r: Result<u64, Status>)
        requires
            old(self).wf(),
            size + PAGE_SIZE <= u64::MAX,
            vmo_offset + size <= u64::MAX,
            options & vmar_options::SPECIFIC != 0 ==> vmar_offset + align_up(size, PAGE_SIZE) <= u64::MAX,
            options & vmar_options::SPECIFIC == 0 ==> free_search_ok(old(self).children@, align_up(size, PAGE_SIZE), PAGE_SIZE),
            map_result(*old(self), vmo_size, vmar_offset, vmo_offset, size, prot, options) matches Ok(off) ==> old(self).base + off
                <= u64::MAX && run_fits((old(self).base + off) as u64, pages_for(size)),
        ensures
            final(self).wf(),
            ({
                let res = map_result(*old(self), vmo_size, vmar_offset, vmo_offset, size, prot, options);
                &&& res is Err ==> r == res && *final(self) == *old(self) && final(aspace).mappings() == old(aspace).mappings()
                &&& res matches Ok(off) ==> ({
                    let vaddr = (old(self).base + off) as u64;
                    let m = old(aspace).mappings();
                    &&& map_post(*old(self), *final(self), vmo_id, vmo_size, vmar_offset, vmo_offset, size, prot, options, res)
                    &&& (forall|i: int| 0 <= i < pages_for(size) ==> !#[trigger] clash(m, vmo_pages@, vmo_offset, vaddr, i))
                        ==> r == Ok::<u64, Status>(vaddr) && final(aspace).mappings() == placed(m, vmo_pages@, vmo_offset, vaddr, pages_for(size), prot)
                    &&& forall|f: int| 0 <= f < pages_for(size) && #[trigger] clash(m, vmo_pages@, vmo_offset, vaddr, f)
                        && (forall|j: int| 0 <= j < f ==> !#[trigger] clash(m, vmo_pages@, vmo_offset, vaddr, j))
                        ==> r == Err::<u64, Status>(RX_ERR_ALREADY_EXISTS) && final(aspace).mappings() == without_run(m, vaddr, f)
                })
            }),
    {
        let offset = match self.map(vmo_id, vmo_size, vmar_offset, vmo_offset, size, prot, options) {
            Ok(o) => o,
            Err(e) => {
                return Err(e);
            },
        };
        let ghost m = aspace.mappings();
        let ghost res = map_result(*old(self), vmo_size, vmar_offset, vmo_offset, size, prot, options);
        let vaddr = self.base + offset;
        let page_count = (size + PAGE_SIZE - 1) / PAGE_SIZE;
        let mut i: u64 = 0;
        while i < page_count
            invariant
                i <= page_count,
                page_count == pages_for(size),
                vmo_offset + size <= u64::MAX,
                size + PAGE_SIZE <= u64::MAX,
                run_fits(vaddr, page_count as int),
                m == old(aspace).mappings(),
                self.wf(),
                res == Ok::<u64, Status>(offset),
                res == map_result(*old(self), vmo_size, vmar_offset, vmo_offset, size, prot, options),
                map_post(*old(self), *self, vmo_id, vmo_size, vmar_offset, vmo_offset, size, prot, options, res),
                vaddr == old(self).base + offset,
                forall|j: int| 0 <= j < i ==> !#[trigger] clash(m, vmo_pages@, vmo_offset, vaddr, j),
                aspace.mappings() == placed(m, vmo_pages@, vmo_offset, vaddr, i as int, prot),
            decreases page_count - i,
        {
            let page_offset = vmo_offset + i * PAGE_SIZE;
            let cur = vaddr + i * PAGE_SIZE;
            let idx = page_offset / PAGE_SIZE;
            let back: Option<u64> = if idx < vmo_pages.len() as u64 { vmo_pages[idx as usize] } else { None };
            proof {
                assert(back == backing(vmo_pages@, vmo_offset, i as int));
                assert((cur - vaddr) / (PAGE_SIZE as int) == i);
                assert(!in_run(cur, vaddr, i as int));
            }
            if let Some(paddr) = back {
                let ghost before = aspace.mappings();
                match aspace.map(cur, paddr, 1, prot) {
                    Ok(()) => {
                        proof {
                            assert(in_run(cur, cur, 1));
                            if m.contains_key(cur) {
                                assert(before.contains_key(cur));
                            }
                            assert forall|k: u64| in_run(k, cur, 1) <==> k == cur by {}
                            assert forall|k: u64| in_run(k, vaddr, i + 1) <==> (in_run(k, vaddr, i as int) || k == cur) by {}
                            assert(!m.contains_key(cur));
                            assert(!clash(m, vmo_pages@, vmo_offset, vaddr, i as int));
                            assert(aspace.mappings() =~= placed(m, vmo_pages@, vmo_offset, vaddr, i + 1, prot));
                        }
                    },
                    Err(err) => {
                        proof {
                            let k = choose|k: u64| #[trigger] placed(m, vmo_pages@, vmo_offset, vaddr, i as int, prot).contains_key(k) && in_run(k, cur, 1);
                            assert(k == cur);
                            assert(clash(m, vmo_pages@, vmo_offset, vaddr, i as int));
                        }
                        let ghost placed_i = aspace.mappings();
                        let mut j: u64 = 0;
                        while j < i
                            invariant
                                j <= i,
                                i < page_count,
                                run_fits(vaddr, page_count as int),
                                aspace.mappings() == without_run(placed_i, vaddr, j as int),
                            decreases i - j,
                        {
                            let prev = vaddr + j * PAGE_SIZE;
                            let _ = aspace.unmap(prev, 1);
                            proof {
                                assert forall|k: u64| in_run(k, prev, 1) <==> k == prev by {}
                                assert forall|k: u64| in_run(k, vaddr, j + 1) <==> (in_run(k, vaddr, j as int) || k == prev) by {}
                                assert(aspace.mappings() =~= without_run(placed_i, vaddr, j + 1));
                            }
                            j = j + 1;
                        }
                        proof {
                            assert(aspace.mappings() =~= without_run(m, vaddr, i as int));
                        }
                        return Err(err);
                    },
                }
            } else {
                proof {
                    assert forall|k: u64| in_run(k, vaddr, i + 1) <==> (in_run(k, vaddr, i as int) || k == cur) by {}
                    assert(aspace.mappings() =~= placed(m, vmo_pages@, vmo_offset, vaddr, i + 1, prot));
                }
            }
            i = i + 1;
        }
        aspace.flush_tlb(vaddr, page_count * PAGE_SIZE);
        Ok(vaddr)
    }

    /// Unmap `size` bytes at `offset` from `aspace` (whole pages only: the
    /// run of `size / PAGE_SIZE` pages at the region's address), then remove
    /// the children of this VMAR that overlap the range, as `unmap` does.
    pub fn unmap_from_aspace(&mut self, aspace: &mut AddressSpace, offset: u64, size: u64) -> (r: Result<(), Status>)
        requires
            old(self).wf(),
            offset + size <= u64::MAX,
            old(self).base + offset <= u64::MAX,
            run_fits((old(self).base + offset) as u64, (size / PAGE_SIZE) as int),
        ensures
            final(self).wf(),
            final(aspace).mappings() == without_run(old(aspace).mappings(), (old(self).base + offset) as u64, (size / PAGE_SIZE) as int),
            old(self).flags.destroyed ==> r == Err::<(), Status>(crate::status::RX_ERR_BAD_STATE) && *final(self) == *old(self),
            !old(self).flags.destroyed ==> r is Ok && final(self).children@ == unmapped(old(self).children@, offset as int, offset + size)
                && final(self).size == old(self).size && final(self).flags == old(self).flags && final(self).id == old(self).id,
    {
        let vaddr = self.base + offset;
        let page_count = size / PAGE_SIZE;
        if page_count > 0 {
            let _ = aspace.unmap(vaddr, page_count);
            aspace.flush_tlb(vaddr, page_count * PAGE_SIZE);
        } else {
            proof {
                assert(aspace.mappings() =~= without_run(old(aspace).mappings(), vaddr, 0));
            }
        }
        self.unmap(offset, size)
    }

    /// Change the protection of the mapping at `offset`, as `protect`
    /// does; when that succeeds, give the mapped pages of the run of
    /// `size / PAGE_SIZE` pages at the region's address protection
    /// `new_prot` in `aspace` too.
    pub fn protect_in_aspace(&mut self, aspace: &mut AddressSpace, offset: u64, size: u64, new_prot: MemProt) -> (r: Result<(), Status>)
        requires
            old(self).wf(),
            protect_succeeds(*old(self), offset, new_prot) ==> old(self).base + offset <= u64::MAX
                && run_fits((old(self).base + offset) as u64, (size / PAGE_SIZE) as int),
        ensures
            final(self).wf(),
            protect_post(*old(self), *final(self), offset, new_prot, r),
            r is Ok ==> final(aspace).mappings() == reprotected(old(aspace).mappings(), (old(self).base + offset) as u64, (size / PAGE_SIZE) as int, new_prot),
            r is Err ==> final(aspace).mappings() == old(aspace).mappings(),
    {
        match self.protect(offset, size, new_prot) {
            Ok(()) => {},
            Err(e) => {
                return Err(e);
            },
        }
        proof {
            let i = choose|i: int| 0 <= i < old(self).children@.len() && (#[trigger] old(self).children@[i]).0 == offset;
            assert(old(self).children@[i].1 is Mapping);
            assert(protect_succeeds(*old(self), offset, new_prot));
        }
        let vaddr = self.base + offset;
        let page_count = size / PAGE_SIZE;
        if page_count > 0 {
            let _ = aspace.protect(vaddr, page_count, new_prot);
            aspace.flush_tlb(vaddr, page_count * PAGE_SIZE);
        } else {
            proof {
                assert(aspace.mappings() =~= reprotected(old(aspace).mappings(), vaddr, 0, new_prot));
            }
        }
        Ok(())
    }
}

/// Unmapping undoes mapping: mapping a run of pages none of which was
/// mapped, then unmapping the same run, gives back the mappings there were.
pub proof fn lemma_unmap_undoes_map(m: Map<u64, (u64, MemProt)>, vaddr: u64, paddr: u64, n: int, prot: MemProt)
    requires
        forall|k: u64| #[trigger] m.contains_key(k) ==> !in_run(k, vaddr, n),
    ensures
        without_run(with_run(m, vaddr, paddr, n, prot), vaddr, n) == m,
{
    assert(without_run(with_run(m, vaddr, paddr, n, prot), vaddr, n) =~= m);
}

/// The walk of `map_to_aspace` leaves nothing behind once rolled back:
/// unmapping the first `f` pages of the mapping after they were placed
/// gives the same mappings as unmapping them before.
pub proof fn lemma_rollback_after_placing(
    m: Map<u64, (u64, MemProt)>,
    pages: Seq<Option<u64>>,
    vmo_offset: u64,
    vaddr: u64,
    f: int,
    prot: MemProt,
)
    ensures
        without_run(placed(m, pages, vmo_offset, vaddr, f, prot), vaddr, f) == without_run(m, vaddr, f),
{
    assert(without_run(placed(m, pages, vmo_offset, vaddr, f, prot), vaddr, f) =~= without_run(m, vaddr, f));
}

/// Changing protections keeps every mapping and its physical page; only
/// the pages of the run change protection.
pub proof fn lemma_reprotect_keeps_frames(m: Map<u64, (u64, MemProt)>, vaddr: u64, n: int, prot: MemProt)
    ensures
        reprotected(m, vaddr, n, prot).dom() == m.dom(),
        forall|k: u64| #[trigger] m.contains_key(k) ==> reprotected(m, vaddr, n, prot)[k].0 == m[k].0,
        forall|k: u64| #[trigger] m.contains_key(k) && in_run(k, vaddr, n) ==> reprotected(m, vaddr, n, prot)[k].1 == prot,
        forall|k: u64| #[trigger] m.contains_key(k) && !in_run(k, vaddr, n) ==> reprotected(m, vaddr, n, prot)[k] == m[k],
{
    assert(reprotected(m, vaddr, n, prot).dom() =~= m.dom());
}

} // verus!

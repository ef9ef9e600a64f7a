//! Kernel object basics shared by the syscalls: rights, object types,
//! handles and a process's handle table.
use vstd::prelude::*;
use crate::status::{Status, RX_ERR_ACCESS_DENIED, RX_ERR_ALREADY_EXISTS, RX_ERR_NO_RESOURCES};

verus! {

/// A set of rights, one bit per right.
pub type Rights = u32;

pub const RIGHTS_NONE: Rights = 0;
pub const RIGHTS_DUPLICATE: Rights = 0x0001;
pub const RIGHTS_TRANSFER: Rights = 0x0002;
pub const RIGHTS_READ: Rights = 0x0004;
pub const RIGHTS_WRITE: Rights = 0x0008;
pub const RIGHTS_EXECUTE: Rights = 0x0010;
pub const RIGHTS_MAP: Rights = 0x0020;
pub const RIGHTS_GET_PROPERTY: Rights = 0x0040;
pub const RIGHTS_SET_PROPERTY: Rights = 0x0080;
pub const RIGHTS_ENUMERATE: Rights = 0x0100;
pub const RIGHTS_DESTROY: Rights = 0x0200;
pub const RIGHTS_SIGNAL: Rights = 0x1000;
pub const RIGHTS_SIGNAL_PEER: Rights = 0x2000;
pub const RIGHTS_WAIT: Rights = 0x4000;
pub const RIGHTS_INSPECT: Rights = 0x8000;
pub const RIGHTS_APPLY_PROFILE: Rights = 0x8_0000;
/// Rights a freshly created object handle carries by default.
pub const RIGHTS_DEFAULT: Rights = 0xC065;

/// Kind of kernel object a handle refers to.
#[derive(Clone, Copy, Debug, PartialEq, Eq, Structural)]
pub enum ObjectType {
    Unknown,
    Process,
    Thread,
    Vmo,
    Channel,
    Event,
    Port,
    Interrupt,
    Log,
    Socket,
    Resource,
    EventPair,
    Job,
    Vmar,
    Fifo,
    Guest,
    Vcpu,
    Timer,
    Iommu,
    Bti,
    Profile,
    Pmt,
    Pager,
}

/// A handle: a reference to the kernel object with id `id`, of kind
/// `obj_type`, carrying `rights`.
#[derive(Clone, Copy, Debug, PartialEq, Eq, Structural)]
pub struct Handle {
    pub obj_type: ObjectType,
    pub id: u64,
    pub rights: Rights,
}

impl Handle {
    /// A handle to object `id` of kind `obj_type` with `rights`.
    pub fn new(obj_type: ObjectType, id: u64, rights: Rights) -> (h: Handle)
        ensures
            h.obj_type == obj_type,
            h.id == id,
            h.rights == rights,
    {
        Handle { obj_type, id, rights }
    }

    /// Whether the handle carries every right in `rights`.
    pub fn has_right(&self, rights: Rights) -> (b: bool)
        ensures
            b == (self.rights & rights == rights),
    {
        self.rights & rights == rights
    }

    /// Succeed when the handle carries every right in `rights`, otherwise
    /// fail with `RX_ERR_ACCESS_DENIED`.
    pub fn require(&self, rights: Rights) -> (r: Result<(), Status>)
        ensures
            r == if self.rights & rights == rights {
                Ok::<(), Status>(())
            } else {
                Err::<(), Status>(RX_ERR_ACCESS_DENIED)
            },
    {
        if self.rights & rights == rights {
            Ok(())
        } else {
            Err(RX_ERR_ACCESS_DENIED)
        }
    }
}

/// Whether `value` names an entry of `entries`.
pub open spec fn has_value(entries: Seq<(u32, Handle)>, value: u32) -> bool {
    exists|i: int| 0 <= i < entries.len() && (#[trigger] entries[i]).0 == value
}

/// What installing `h` under `value` does to table `t`, giving `t2`: a free
/// value then resolves to `h` and every other value resolves as before; a
/// value in use leaves the table as it was.
pub open spec fn install_post(t: HandleTable, t2: HandleTable, value: u32, h: Handle) -> bool {
    if t.lookup(value) is None {
        &&& t2.lookup(value) == Some(h)
        &&& forall|v: u32| v != value ==> #[trigger] t2.lookup(v) == t.lookup(v)
    } else {
        t2 == t
    }
}

/// Where value `v` resolves after `ha` is installed under `va` and then
/// `hb` under `vb` (two distinct values) in `t`: each of the two values
/// resolves to its handle when it was free, and every value resolves as
/// before otherwise.
pub open spec fn pair_lookup(t: HandleTable, va: u32, ha: Handle, vb: u32, hb: Handle, v: u32) -> Option<Handle> {
    if v == va && t.lookup(va) is None {
        Some(ha)
    } else if v == vb && t.lookup(vb) is None {
        Some(hb)
    } else {
        t.lookup(v)
    }
}

/// The handles of one process, each under a distinct handle value.
pub struct HandleTable {
    pub entries: Vec<(u32, Handle)>,
    pub next_value: u32,
}

impl HandleTable {
    /// No handle value occurs twice.
    pub open spec fn wf(&self) -> bool {
        forall|i: int, j: int|
            0 <= i < j < self.entries@.len() ==> (#[trigger] self.entries@[i]).0 != (#[trigger] self.entries@[j]).0
    }

    /// The handle stored under `value`, if any.
    pub open spec fn lookup(&self, value: u32) -> Option<Handle> {
        if has_value(self.entries@, value) {
            Some(self.entries@[choose|i: int| 0 <= i < self.entries@.len() && (#[trigger] self.entries@[i]).0 == value].1)
        } else {
            None
        }
    }

    /// An empty table whose first allocated value is 1.
    pub fn new() -> (t: HandleTable)
        ensures
            t.wf(),
            t.entries@.len() == 0,
            t.next_value == 1,
            forall|v: u32| t.lookup(v) is None,
    {
        HandleTable { entries: Vec::new(), next_value: 1 }
    }

    /// Position of `value` in the table, if present.
    fn position(&self, value: u32) -> (r: Option<usize>)
        requires
            self.wf(),
        ensures
            r matches Some(i) ==> i < self.entries@.len() && self.entries@[i as int].0 == value,
            r is None ==> !has_value(self.entries@, value),
    {
        let mut i: usize = 0;
        while i < self.entries.len()
            invariant
                i <= self.entries@.len(),
                forall|k: int| 0 <= k < i ==> (#[trigger] self.entries@[k]).0 != value,
            decreases self.entries@.len() - i,
        {
            if self.entries[i].0 == value {
                return Some(i);
            }
            i = i + 1;
        }
        None
    }

    /// The handle stored under `value`, if any.
    pub fn get(&self, value: u32) -> (r: Option<Handle>)
        requires
            self.wf(),
        ensures
            r == self.lookup(value),
    {
        match self.position(value) {
            Some(i) => {
                proof {
                    self.lemma_lookup_at(i as int);
                }
                Some(self.entries[i].1)
            },
            None => None,
        }
    }

    /// With distinct values, the entry at `i` is what a lookup of its value finds.
    pub proof fn lemma_lookup_at(&self, i: int)
        requires
            self.wf(),
            0 <= i < self.entries@.len(),
        ensures
            self.lookup(self.entries@[i].0) == Some(self.entries@[i].1),
    {
        let v = self.entries@[i].0;
        assert(has_value(self.entries@, v));
        let k = choose|k: int| 0 <= k < self.entries@.len() && (#[trigger] self.entries@[k]).0 == v;
        if k != i {
            if k < i {
                assert(self.entries@[k].0 != self.entries@[i].0);
            } else {
                assert(self.entries@[i].0 != self.entries@[k].0);
            }
        }
    }

    /// Store `h` under `value`, which must not be in use.
    pub fn install(&mut self, value: u32, h: Handle) -> (r: Result<u32, Status>)
        requires
            old(self).wf(),
        ensures
            final(self).wf(),
            final(self).next_value == old(self).next_value,
            has_value(old(self).entries@, value) ==> r == Err::<u32, Status>(RX_ERR_ALREADY_EXISTS)
                && *final(self) == *old(self),
            !has_value(old(self).entries@, value) ==> r == Ok::<u32, Status>(value)
                && final(self).entries@ == old(self).entries@.push((value, h)),
            install_post(*old(self), *final(self), value, h),
    {
        if self.position(value).is_some() {
            return Err(RX_ERR_ALREADY_EXISTS);
        }
        self.entries.push((value, h));
        proof {
            assert forall|i: int, j: int| 0 <= i < j < self.entries@.len() implies
                (#[trigger] self.entries@[i]).0 != (#[trigger] self.entries@[j]).0 by {
                if j == self.entries@.len() - 1 {
                    assert(old(self).entries@[i] == self.entries@[i]);
                } else {
                    assert(old(self).entries@[i] == self.entries@[i]);
                    assert(old(self).entries@[j] == self.entries@[j]);
                }
            }
            lemma_install_then_lookup(*old(self), *self, value, h);
            assert forall|v: u32| v != value implies #[trigger] self.lookup(v) == old(self).lookup(v) by {
                if has_value(old(self).entries@, v) {
                    let k = choose|k: int| 0 <= k < old(self).entries@.len() && (#[trigger] old(self).entries@[k]).0 == v;
                    old(self).lemma_lookup_at(k);
                    assert(self.entries@[k] == old(self).entries@[k]);
                    self.lemma_lookup_at(k);
                } else if has_value(self.entries@, v) {
                    let k = choose|k: int| 0 <= k < self.entries@.len() && (#[trigger] self.entries@[k]).0 == v;
                    if k < old(self).entries@.len() {
                        assert(self.entries@[k] == old(self).entries@[k]);
                    }
                }
            }
        }
        Ok(value)
    }

    /// Store `h` under the next free value of the allocation counter.
    pub fn add(&mut self, h: Handle) -> (r: Result<u32, Status>)
        requires
            old(self).wf(),
        ensures
            final(self).wf(),
            ({
                let v = old(self).next_value;
                if v == 0 || v == u32::MAX || has_value(old(self).entries@, v) {
                    r == Err::<u32, Status>(RX_ERR_NO_RESOURCES) && *final(self) == *old(self)
                } else {
                    &&& r == Ok::<u32, Status>(v)
                    &&& final(self).entries@ == old(self).entries@.push((v, h))
                    &&& final(self).next_value == v + 1
                    &&& final(self).lookup(v) == Some(h)
                    &&& forall|w: u32| w != v ==> #[trigger] final(self).lookup(w) == old(self).lookup(w)
                }
            }),
    {
        let v = self.next_value;
        if v == 0 || v == u32::MAX || self.position(v).is_some() {
            return Err(RX_ERR_NO_RESOURCES);
        }
        let r = self.install(v, h);
        let ghost mid = *self;
        self.next_value = v + 1;
        proof {
            assert(self.lookup(v) == mid.lookup(v));
            assert forall|w: u32| w != v implies #[trigger] self.lookup(w) == old(self).lookup(w) by {
                assert(self.lookup(w) == mid.lookup(w));
            }
        }
        r
    }

    /// Take the handle stored under `value` out of the table.
    pub fn remove(&mut self, value: u32) -> (r: Option<Handle>)
        requires
            old(self).wf(),
        ensures
            final(self).wf(),
            final(self).next_value == old(self).next_value,
            r == old(self).lookup(value),
            final(self).lookup(value) is None,
            forall|v: u32| v != value ==> #[trigger] final(self).lookup(v) == old(self).lookup(v),
    {
        match self.position(value) {
            Some(i) => {
                proof {
                    self.lemma_lookup_at(i as int);
                }
                let e = self.entries.remove(i);
                proof {
                    assert(self.entries@ == old(self).entries@.remove(i as int));
                    assert forall|a: int, b: int| 0 <= a < b < self.entries@.len() implies
                        (#[trigger] self.entries@[a]).0 != (#[trigger] self.entries@[b]).0 by {
                        let oa = if a < i { a } else { a + 1 };
                        let ob = if b < i { b } else { b + 1 };
                        assert(self.entries@[a] == old(self).entries@[oa]);
                        assert(self.entries@[b] == old(self).entries@[ob]);
                    }
                    assert(!has_value(self.entries@, value)) by {
                        if has_value(self.entries@, value) {
                            let k = choose|k: int| 0 <= k < self.entries@.len() && (#[trigger] self.entries@[k]).0 == value;
                            let ok = if k < i { k } else { k + 1 };
                            assert(self.entries@[k] == old(self).entries@[ok]);
                            if ok < i {
                                assert(old(self).entries@[ok].0 != old(self).entries@[i as int].0);
                            } else {
                                assert(old(self).entries@[i as int].0 != old(self).entries@[ok].0);
                            }
                        }
                    }
                    assert forall|v: u32| v != value implies #[trigger] self.lookup(v) == old(self).lookup(v) by {
                        if has_value(old(self).entries@, v) {
                            let k = choose|k: int| 0 <= k < old(self).entries@.len() && (#[trigger] old(self).entries@[k]).0 == v;
                            old(self).lemma_lookup_at(k);
                            let nk = if k < i { k } else { k - 1 };
                            assert(self.entries@[nk] == old(self).entries@[k]);
                            self.lemma_lookup_at(nk);
                        } else {
                            if has_value(self.entries@, v) {
                                let k = choose|k: int| 0 <= k < self.entries@.len() && (#[trigger] self.entries@[k]).0 == v;
                                let ok = if k < i { k } else { k + 1 };
                                assert(self.entries@[k] == old(self).entries@[ok]);
                            }
                        }
                    }
                }
                Some(e.1)
            },
            None => None,
        }
    }
}

/// Law: a handle installed under a value is what a lookup of that value
/// finds afterwards.
pub proof fn lemma_install_then_lookup(t: HandleTable, t2: HandleTable, value: u32, h: Handle)
    requires
        t.wf(),
        t2.wf(),
        !has_value(t.entries@, value),
        t2.entries@ == t.entries@.push((value, h)),
    ensures
        t2.lookup(value) == Some(h),
{
    t2.lemma_lookup_at(t.entries@.len() as int);
}

} // verus!

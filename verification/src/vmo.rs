//! Virtual memory objects and the syscalls that create, read, write and
//! clone them.
use vstd::prelude::*;
use crate::status::{Status, RX_ERR_INVALID_ARGS, RX_ERR_NOT_FOUND, RX_ERR_NOT_SUPPORTED, RX_ERR_OUT_OF_RANGE, RX_ERR_WRONG_TYPE, RX_ERR_ACCESS_DENIED};
use crate::registry::{SlotTable, slot_of, lemma_slot_of, lemma_lookup_update, insert_post, insert_result, inserted_such_that, updated_such_that, remove_post, home_slot, insert_pos, lemma_insert_pos_in};
use crate::kobject::{Handle, HandleTable, ObjectType, Rights, RIGHTS_DEFAULT, RIGHTS_DUPLICATE, RIGHTS_READ, RIGHTS_WRITE, install_post};
use crate::usercopy::UserMemory;
use crate::{SyscallRet, err_to_ret, ok_to_ret};

verus! {

/// Identifier of a VMO.
pub type VmoId = u64;

/// Capacity of the VMO registry.
pub const MAX_VMOS: usize = 65536;

/// Largest transfer a single VMO read or write syscall accepts (16 MiB).
pub const MAX_VMO_TRANSFER: usize = 0x100_0000;

/// Flag bit: the VMO may change size.
pub const VMO_FLAG_RESIZABLE: u32 = 0x1;

/// Flag bit: the VMO is a copy-on-write clone.
pub const VMO_FLAG_COW: u32 = 0x2;

/// Whether `size` is a non-zero multiple of the 4 KiB page.
pub open spec fn page_sized(size: usize) -> bool {
    size != 0 && size & 0xFFF == 0
}

/// Creation flags of a VMO.
#[derive(Clone, Copy, Debug, PartialEq, Eq, Structural)]
pub struct VmoFlags {
    pub bits: u32,
}

impl VmoFlags {
    /// No flag set.
    pub fn empty() -> (f: VmoFlags)
        ensures
            f.bits == 0,
    {
        VmoFlags { bits: 0 }
    }

    /// The resizable flag alone.
    pub fn resizable() -> (f: VmoFlags)
        ensures
            f.bits == VMO_FLAG_RESIZABLE,
    {
        VmoFlags { bits: VMO_FLAG_RESIZABLE }
    }

    /// The copy-on-write flag alone.
    pub fn cow() -> (f: VmoFlags)
        ensures
            f.bits == VMO_FLAG_COW,
    {
        VmoFlags { bits: VMO_FLAG_COW }
    }

    pub fn is_resizable(&self) -> (b: bool)
        ensures
            b == (self.bits & VMO_FLAG_RESIZABLE != 0),
    {
        self.bits & VMO_FLAG_RESIZABLE != 0
    }

    pub fn is_cow(&self) -> (b: bool)
        ensures
            b == (self.bits & VMO_FLAG_COW != 0),
    {
        self.bits & VMO_FLAG_COW != 0
    }
}

/// Contents after `b` is written at offset `off` of contents `d`: the
/// written bytes replace what was there, the contents grow to cover them,
/// and a gap before them reads as zeros.  An empty write changes nothing.
pub open spec fn data_after_write(d: Seq<u8>, off: int, b: Seq<u8>) -> Seq<u8> {
    if b.len() == 0 {
        d
    } else {
        let n = if d.len() > off + b.len() { d.len() as int } else { off + b.len() };
        Seq::new(n as nat, |i: int| if off <= i < off + b.len() { b[i - off] } else if i < d.len() { d[i] } else { 0u8 })
    }
}

/// Number of bytes a read at `off` into a buffer of `cap` bytes returns
/// from contents of length `len`: what the contents hold from `off` on, at
/// most `cap`.
pub open spec fn read_count(len: int, off: int, cap: int) -> int {
    if off >= len {
        0
    } else if len - off < cap {
        len - off
    } else {
        cap
    }
}

/// The `n` content bytes from `off` on (nothing when `n` is zero).
pub open spec fn read_bytes(d: Seq<u8>, off: int, n: int) -> Seq<u8> {
    if n == 0 {
        Seq::empty()
    } else {
        d.subrange(off, off + n)
    }
}

/// The smaller of two integers.
pub open spec fn min_int(a: int, b: int) -> int {
    if a < b {
        a
    } else {
        b
    }
}

/// The contents a clone of `size` bytes at `off` starts with.
pub open spec fn clone_data(d: Seq<u8>, off: int, size: int) -> Seq<u8> {
    d.subrange(min_int(off, d.len() as int), min_int(off + size, d.len() as int))
}

/// Law: a clone of `size` bytes at `off` starts with the parent's bytes from
/// `off`: its byte `i` is the parent's byte `off + i`, for every `i` below
/// `size` that the parent's contents reach, and it holds no more bytes than
/// that.
pub proof fn lemma_clone_reads_parent(d: Seq<u8>, off: int, size: int)
    requires
        0 <= off,
        0 <= size,
    ensures
        clone_data(d, off, size).len() == (if off >= d.len() { 0 } else if off + size <= d.len() { size } else { d.len() - off }),
        forall|i: int| 0 <= i < size && off + i < d.len() ==> #[trigger] clone_data(d, off, size)[i] == d[off + i],
{
}

/// Law: reading back, at the offset of a write, as many bytes as were
/// written gives exactly the written bytes.
pub proof fn lemma_write_then_read(d: Seq<u8>, off: int, b: Seq<u8>)
    requires
        0 <= off,
        b.len() > 0,
    ensures
        read_count(data_after_write(d, off, b).len() as int, off, b.len() as int) == b.len(),
        read_bytes(data_after_write(d, off, b), off, b.len() as int) == b,
{
    let d2 = data_after_write(d, off, b);
    assert(d2.subrange(off, off + b.len()) =~= b);
}

/// Law: a write leaves every content byte outside the written range as it
/// was.
pub proof fn lemma_write_keeps_rest(d: Seq<u8>, off: int, b: Seq<u8>, i: int)
    requires
        0 <= off,
        0 <= i < d.len(),
        !(off <= i < off + b.len()),
    ensures
        data_after_write(d, off, b)[i] == d[i],
{
}

/// A virtual memory object of `size` bytes; `data` holds the bytes written
/// so far (never more than `size`), anything beyond reads as nothing.
pub struct Vmo {
    pub id: VmoId,
    pub size: usize,
    pub flags: VmoFlags,
    pub data: Vec<u8>,
}

impl Vmo {
    /// The contents never outgrow the object.
    pub open spec fn wf(&self) -> bool {
        self.data@.len() <= self.size
    }

    /// A VMO of `size` bytes with no contents; the size must be a non-zero
    /// multiple of the page size.
    pub fn create(id: VmoId, size: usize, flags: VmoFlags) -> (r: Result<Vmo, Status>)
        ensures
            !page_sized(size) ==> r == Err::<Vmo, Status>(RX_ERR_INVALID_ARGS),
            page_sized(size) ==> (r matches Ok(v) && v.wf() && v.id == id && v.size == size && v.flags == flags && v.data@.len() == 0),
    {
        if size == 0 || size & 0xFFF != 0 {
            return Err(RX_ERR_INVALID_ARGS);
        }
        Ok(Vmo { id, size, flags, data: Vec::new() })
    }

    /// Size of the object in bytes.
    pub fn size(&self) -> (s: usize)
        ensures
            s == self.size,
    {
        self.size
    }

    /// Write `buf` at `offset`; the bytes must fit inside the object.
    pub fn write(&mut self, offset: usize, buf: &[u8]) -> (r: Result<usize, Status>)
        requires
            old(self).wf(),
        ensures
            final(self).wf(),
            final(self).id == old(self).id,
            final(self).size == old(self).size,
            final(self).flags == old(self).flags,
            (offset > old(self).size || buf@.len() > old(self).size - offset) ==> r == Err::<usize, Status>(RX_ERR_OUT_OF_RANGE)
                && final(self).data@ == old(self).data@,
            !(offset > old(self).size || buf@.len() > old(self).size - offset) ==> r == Ok::<usize, Status>(buf@.len() as usize)
                && final(self).data@ == data_after_write(old(self).data@, offset as int, buf@),
    {
        let blen = buf.len();
        if offset > self.size || blen > self.size - offset {
            return Err(RX_ERR_OUT_OF_RANGE);
        }
        if blen == 0 {
            return Ok(0);
        }
        let dlen = self.data.len();
        let end = offset + blen;
        let n = if dlen > end { dlen } else { end };
        let mut out: Vec<u8> = Vec::new();
        let mut i: usize = 0;
        while i < n
            invariant
                i <= n,
                n <= self.size,
                dlen == self.data@.len(),
                blen == buf@.len(),
                end == offset + blen,
                out@.len() == i,
                forall|k: int| 0 <= k < i ==> #[trigger] out@[k] == (if offset <= k < end { buf@[k - offset] } else if k < dlen { self.data@[k] } else { 0u8 }),
            decreases n - i,
        {
            let byte = if offset <= i && i < end { buf[i - offset] } else if i < dlen { self.data[i] } else { 0u8 };
            out.push(byte);
            i = i + 1;
        }
        proof {
            assert(out@ =~= data_after_write(self.data@, offset as int, buf@));
        }
        self.data = out;
        Ok(blen)
    }

    /// Read the contents at `offset` into the front of `buf`, as many bytes
    /// as the contents hold there and `buf` can take; the rest of `buf` is
    /// left alone.  The offset must lie inside the object.
    pub fn read(&self, offset: usize, buf: &mut Vec<u8>) -> (r: Result<usize, Status>)
        requires
            self.wf(),
        ensures
            offset > self.size ==> r == Err::<usize, Status>(RX_ERR_OUT_OF_RANGE) && final(buf)@ == old(buf)@,
            offset <= self.size ==> ({
                let n = read_count(self.data@.len() as int, offset as int, old(buf)@.len() as int);
                &&& r == Ok::<usize, Status>(n as usize)
                &&& final(buf)@ == read_bytes(self.data@, offset as int, n) + old(buf)@.subrange(n, old(buf)@.len() as int)
            }),
    {
        if offset > self.size {
            return Err(RX_ERR_OUT_OF_RANGE);
        }
        let dlen = self.data.len();
        let cap = buf.len();
        let n = if offset >= dlen { 0 } else if dlen - offset < cap { dlen - offset } else { cap };
        let mut i: usize = 0;
        while i < n
            invariant
                i <= n,
                n <= cap,
                cap == old(buf)@.len(),
                buf@.len() == cap,
                dlen == self.data@.len(),
                n > 0 ==> offset + n <= dlen,
                forall|k: int| 0 <= k < i ==> #[trigger] buf@[k] == self.data@[offset + k],
                forall|k: int| i <= k < cap ==> #[trigger] buf@[k] == old(buf)@[k],
            decreases n - i,
        {
            buf.set(i, self.data[offset + i]);
            i = i + 1;
        }
        proof {
            assert(buf@ =~= read_bytes(self.data@, offset as int, n as int) + old(buf)@.subrange(n as int, cap as int));
        }
        Ok(n)
    }

    /// A copy-on-write clone of `size` bytes starting at `offset`, with id
    /// `new_id`; it starts with the contents found in that range.  The size
    /// must be a non-zero page multiple and the range inside this object.
    pub fn clone(&self, new_id: VmoId, offset: usize, size: usize) -> (r: Result<Vmo, Status>)
        requires
            self.wf(),
        ensures
            !page_sized(size) ==> r == Err::<Vmo, Status>(RX_ERR_INVALID_ARGS),
            page_sized(size) && (offset > self.size || size > self.size - offset) ==> r == Err::<Vmo, Status>(RX_ERR_OUT_OF_RANGE),
            page_sized(size) && !(offset > self.size || size > self.size - offset) ==> (r matches Ok(v) && v.wf() && v.id == new_id
                && v.size == size && v.flags.bits == VMO_FLAG_COW && v.data@ == clone_data(self.data@, offset as int, size as int)),
    {
        if size == 0 || size & 0xFFF != 0 {
            return Err(RX_ERR_INVALID_ARGS);
        }
        if offset > self.size || size > self.size - offset {
            return Err(RX_ERR_OUT_OF_RANGE);
        }
        let dlen = self.data.len();
        let start = if offset < dlen { offset } else { dlen };
        let end = if offset + size < dlen { offset + size } else { dlen };
        let mut out: Vec<u8> = Vec::new();
        let mut i: usize = start;
        while i < end
            invariant
                start <= i <= end,
                end <= dlen,
                dlen == self.data@.len(),
                out@ == self.data@.subrange(start as int, i as int),
            decreases end - i,
        {
            out.push(self.data[i]);
            i = i + 1;
            proof {
                assert(out@ =~= self.data@.subrange(start as int, i as int));
            }
        }
        Ok(Vmo { id: new_id, size, flags: VmoFlags::cow(), data: out })
    }

    /// Change the size of a resizable VMO to `new_size` (a non-zero page
    /// multiple), dropping contents past the new end.
    pub fn resize(&mut self, new_size: usize) -> (r: Result<(), Status>)
        requires
            old(self).wf(),
        ensures
            final(self).wf(),
            final(self).id == old(self).id,
            final(self).flags == old(self).flags,
            old(self).flags.bits & VMO_FLAG_RESIZABLE == 0 ==> r == Err::<(), Status>(RX_ERR_NOT_SUPPORTED)
                && final(self).size == old(self).size && final(self).data@ == old(self).data@,
            old(self).flags.bits & VMO_FLAG_RESIZABLE != 0 && !page_sized(new_size) ==> r == Err::<(), Status>(RX_ERR_INVALID_ARGS)
                && final(self).size == old(self).size && final(self).data@ == old(self).data@,
            old(self).flags.bits & VMO_FLAG_RESIZABLE != 0 && page_sized(new_size) ==> r is Ok && final(self).size == new_size
                && final(self).data@ == old(self).data@.subrange(0, min_int(new_size as int, old(self).data@.len() as int)),
    {
        if !self.flags.is_resizable() {
            return Err(RX_ERR_NOT_SUPPORTED);
        }
        if new_size == 0 || new_size & 0xFFF != 0 {
            return Err(RX_ERR_INVALID_ARGS);
        }
        if self.data.len() > new_size {
            self.data.truncate(new_size);
        }
        self.size = new_size;
        Ok(())
    }
}

/// Every VMO known to the kernel, by id.
pub struct VmoRegistry {
    pub table: SlotTable<Vmo>,
}

impl VmoRegistry {
    pub open spec fn wf(&self) -> bool {
        self.table.wf()
    }

    /// Object registered under `id`, as a lookup sees it.
    pub open spec fn find(&self, id: u64) -> Option<Vmo> {
        self.table.find(id)
    }

    /// Every VMO a lookup can reach is well formed.
    pub open spec fn entries_wf(&self) -> bool {
        forall|i: int| 0 <= i < self.table.slots@.len() && (#[trigger] self.table.slots@[i]) is Some
            ==> (self.table.slots@[i]->0).1.wf()
    }

    /// Every VMO a lookup finds in a registry whose entries are well formed
    /// is well formed.
    pub proof fn lemma_find_wf(&self, id: u64)
        requires
            self.wf(),
            self.entries_wf(),
        ensures
            self.find(id) matches Some(v) ==> v.wf(),
    {
        lemma_slot_of(self.table.slots@, id);
        let p = slot_of(self.table.slots@, id);
        if p >= 0 {
            assert(self.table.slots@[p] is Some);
        }
    }

    /// An empty registry of `MAX_VMOS` slots.
    pub fn new() -> (r: VmoRegistry)
        ensures
            r.wf(),
            r.table.slots@.len() == MAX_VMOS,
            r.table.count == 0,
            r.table.next_index == 0,
            forall|i: int| 0 <= i < MAX_VMOS ==> r.table.slots@[i] is None,
            forall|id: u64| #[trigger] r.table.find(id) is None,
            r.entries_wf(),
    {
        VmoRegistry { table: SlotTable::new(MAX_VMOS) }
    }

    /// Register `obj` under its id, in the first free slot probing the
    /// whole table from its home slot.
    pub fn insert(&mut self, obj: Vmo) -> (r: Result<u64, Status>)
        requires
            old(self).wf(),
        ensures
            final(self).wf(),
            insert_post(old(self).table, final(self).table, obj.id, obj, r),
    {
        let id = obj.id;
        self.table.insert(id, obj)
    }

    /// Object registered under `id`, as a lookup finds it.
    pub fn get(&self, id: u64) -> (r: Option<&Vmo>)
        requires
            self.wf(),
        ensures
            r matches Some(v) ==> self.find(id) == Some(*v),
            r is None ==> self.find(id) is None,
    {
        self.table.get(id)
    }

    /// Remove the entry a lookup of `id` finds, handing its object back.
    pub fn remove(&mut self, id: u64) -> (r: Option<Vmo>)
        requires
            old(self).wf(),
        ensures
            final(self).wf(),
            remove_post(old(self).table, final(self).table, id, r),
    {
        self.table.remove(id)
    }

    /// Number of objects counted as registered.
    pub fn count(&self) -> (c: usize)
        ensures
            c == self.table.count,
    {
        self.table.count
    }
}

/// The VMOs of the kernel and the next id to hand out.
pub struct VmoSubsystem {
    pub registry: VmoRegistry,
    pub next_id: VmoId,
}

impl VmoSubsystem {
    /// No VMOs; ids are handed out from 1.
    pub fn new() -> (s: VmoSubsystem)
        ensures
            s.registry.wf(),
            s.registry.table.count == 0,
            s.next_id == 1,
            forall|id: u64| s.registry.find(id) is None,
            s.registry.entries_wf(),
    {
        VmoSubsystem { registry: VmoRegistry::new(), next_id: 1 }
    }
}

/// The handle and VMO id reached through handle value `hv`: the handle
/// must exist, refer to a VMO, carry `rights`, and name a registered VMO.
pub open spec fn vmo_for_handle(handles: HandleTable, reg: VmoRegistry, hv: u32, rights: Rights) -> Result<Handle, Status> {
    match handles.lookup(hv) {
        None => Err(RX_ERR_INVALID_ARGS),
        Some(h) => if h.obj_type != ObjectType::Vmo {
            Err(RX_ERR_WRONG_TYPE)
        } else if h.rights & rights != rights {
            Err(RX_ERR_ACCESS_DENIED)
        } else if reg.find(h.id) is None {
            Err(RX_ERR_NOT_FOUND)
        } else {
            Ok(h)
        },
    }
}

/// Resolve a handle value to the handle of the VMO it refers to.
pub fn lookup_vmo_from_handle(handles: &HandleTable, reg: &VmoRegistry, handle_val: u32, required_rights: Rights) -> (r: Result<Handle, Status>)
    requires
        handles.wf(),
        reg.wf(),
    ensures
        r == vmo_for_handle(*handles, *reg, handle_val, required_rights),
{
    let handle = match handles.get(handle_val) {
        Some(h) => h,
        None => {
            return Err(RX_ERR_INVALID_ARGS);
        },
    };
    if handle.obj_type != ObjectType::Vmo {
        return Err(RX_ERR_WRONG_TYPE);
    }
    match handle.require(required_rights) {
        Ok(()) => {},
        Err(e) => {
            return Err(e);
        },
    }
    match reg.get(handle.id) {
        Some(_) => Ok(handle),
        None => Err(RX_ERR_NOT_FOUND),
    }
}

/// Flags a VMO is created with: option 0 makes it resizable, option 1 not.
pub open spec fn vmo_flags_of(options: u32) -> VmoFlags {
    if options == 0 {
        VmoFlags { bits: VMO_FLAG_RESIZABLE }
    } else {
        VmoFlags { bits: 0 }
    }
}

/// Outcome of creating a VMO of `size` bytes: `r` is the result and a name ending in `_after` is that state after the call.
pub open spec fn vmo_create_outcome(
    sub: VmoSubsystem,
    sub_after: VmoSubsystem,
    handles: HandleTable,
    handles_after: HandleTable,
    size: usize,
    options: u32,
    r: SyscallRet,
) -> bool {
    &&& (!page_sized(size) || options > 1) ==> r == -RX_ERR_INVALID_ARGS && sub_after == sub && handles_after == handles
    &&& (page_sized(size) && options <= 1) ==> ({
        let id = sub.next_id;
        let rr = insert_result(sub.registry.table, id);
        &&& inserted_such_that(sub.registry.table, sub_after.registry.table, id, rr,
            |v: Vmo| v.wf() && v.id == id && v.size == size && v.flags == vmo_flags_of(options) && v.data@.len() == 0)
        &&& match rr {
            Err(err) => r == -err && sub_after.next_id == sub.next_id && handles_after == handles,
            Ok(_) => {
                &&& r == (#[verifier::truncate] (id as u32)) as isize
                &&& sub_after.next_id == id.wrapping_add(1)
                &&& install_post(handles, handles_after, #[verifier::truncate] (id as u32), Handle { obj_type: ObjectType::Vmo, id, rights: RIGHTS_DEFAULT })
            },
        }
    })
}

/// Law: a VMO created with option 0 is resizable (flag bit 0x1) and one
/// created with option 1 is not; any other option is refused with
/// `RX_ERR_INVALID_ARGS`.  The new VMO is empty, of the requested size, under
/// the next id.
pub proof fn lemma_vmo_created_as_asked(
    sub: VmoSubsystem,
    sub_after: VmoSubsystem,
    handles: HandleTable,
    handles_after: HandleTable,
    size: usize,
    options: u32,
    r: SyscallRet,
)
    requires
        vmo_create_outcome(sub, sub_after, handles, handles_after, size, options, r),
    ensures
        options > 1 ==> r == -RX_ERR_INVALID_ARGS && sub_after == sub,
        page_sized(size) && options <= 1 && insert_result(sub.registry.table, sub.next_id) is Ok ==> exists|i: int|
            0 <= i < sub_after.registry.table.slots@.len() && ((#[trigger] sub_after.registry.table.slots@[i]) matches Some(e)
            && e.0 == sub.next_id && e.1.id == sub.next_id && e.1.size == size && e.1.data@.len() == 0
            && e.1.flags.bits == (if options == 0 { 0x1u32 } else { 0u32 })),
{
    if page_sized(size) && options <= 1 && insert_result(sub.registry.table, sub.next_id) is Ok {
        let pos = insert_pos(sub.registry.table.slots@, sub.registry.table.next_index as nat, sub.next_id)->0;
        assert(sub_after.registry.table.slots@[pos] is Some);
    }
}

/// Create a VMO of `size` bytes (a non-zero page multiple; option 0 makes
/// it resizable, option 1 fixed, any other option is refused) and a handle
/// to it with the default rights, whose value is the VMO's id.
pub fn sys_vmo_create_impl(sub: &mut VmoSubsystem, handles: &mut HandleTable, size: usize, options: u32) -> (r: SyscallRet)
    requires
        old(sub).registry.wf(),
        old(handles).wf(),
    ensures
        final(sub).registry.wf(),
        final(handles).wf(),
        old(sub).registry.entries_wf() ==> final(sub).registry.entries_wf(),
        vmo_create_outcome(*old(sub), *final(sub), *old(handles), *final(handles), size, options, r),
{
    if size == 0 || (size & 0xFFF) != 0 {
        return err_to_ret(RX_ERR_INVALID_ARGS);
    }
    let flags = if options == 0 {
        VmoFlags::resizable()
    } else if options == 1 {
        VmoFlags::empty()
    } else {
        return err_to_ret(RX_ERR_INVALID_ARGS);
    };
    let id = sub.next_id;
    let vmo = match Vmo::create(id, size, flags) {
        Ok(v) => v,
        Err(err) => {
            return err_to_ret(err);
        },
    };
    let ghost before = sub.registry;
    let vmo_id = match sub.registry.insert(vmo) {
        Ok(id) => id,
        Err(err) => {
            return err_to_ret(err);
        },
    };
    proof {
        if before.entries_wf() {
            let pos = insert_pos(before.table.slots@, before.table.next_index as nat, id)->0;
            lemma_insert_pos_in(before.table.slots@, before.table.next_index as nat, id);
            lemma_slot_store_keeps_entries_wf(before, sub.registry, pos);
        }
    }
    sub.next_id = sub.next_id.wrapping_add(1);
    let handle_value = #[verifier::truncate] (vmo_id as u32);
    let _ = handles.install(handle_value, Handle::new(ObjectType::Vmo, vmo_id, RIGHTS_DEFAULT));
    ok_to_ret(handle_value as usize)
}

/// A kernel buffer of `len` zero bytes.
fn zeroed(len: usize) -> (v: Vec<u8>)
    ensures
        v@.len() == len,
        forall|i: int| 0 <= i < len ==> v@[i] == 0,
{
    let mut v: Vec<u8> = Vec::new();
    let mut i: usize = 0;
    while i < len
        invariant
            i <= len,
            v@.len() == i,
            forall|k: int| 0 <= k < i ==> v@[k] == 0,
        decreases len - i,
    {
        v.push(0);
        i = i + 1;
    }
    v
}

/// Outcome of reading `len` bytes at `offset` of a VMO into user memory at `user_ptr`: `r` is the result and a name ending in `_after` is that state after the call.
pub open spec fn vmo_read_outcome(
    sub: VmoSubsystem,
    handles: HandleTable,
    mem: UserMemory,
    mem_after: UserMemory,
    handle_val: u32,
    user_ptr: usize,
    offset: usize,
    len: usize,
    r: SyscallRet,
) -> bool {
    &&& mem_after.base == mem.base
    &&& len == 0 ==> r == 0 && mem_after == mem
    &&& len > MAX_VMO_TRANSFER ==> r == -RX_ERR_INVALID_ARGS && mem_after == mem
    &&& 0 < len <= MAX_VMO_TRANSFER && !mem.valid_addr(user_ptr) ==> r == -RX_ERR_INVALID_ARGS && mem_after == mem
    &&& 0 < len <= MAX_VMO_TRANSFER && mem.valid_addr(user_ptr) ==> match vmo_for_handle(handles, sub.registry, handle_val, RIGHTS_READ) {
        Err(e) => r == -e && mem_after == mem,
        Ok(h) => {
            let v = sub.registry.find(h.id)->0;
            let n = read_count(v.data@.len() as int, offset as int, len as int);
            if offset > v.size {
                r == -RX_ERR_OUT_OF_RANGE && mem_after == mem
            } else if mem.range_ok(user_ptr, n as usize) {
                r == n && mem_after.bytes@ == mem.written(user_ptr, read_bytes(v.data@, offset as int, n))
            } else {
                r == -RX_ERR_INVALID_ARGS && mem_after == mem
            }
        },
    }
}

/// Read up to `len` bytes of the VMO behind `handle_val` (which needs the
/// read right) at `offset` into user memory at `user_ptr`, returning how
/// many bytes were read.
pub fn sys_vmo_read_impl(sub: &VmoSubsystem, handles: &HandleTable, mem: &mut UserMemory, handle_val: u32, user_ptr: usize, offset: usize, len: usize) -> (r: SyscallRet)
    requires
        sub.registry.wf(),
        handles.wf(),
        sub.registry.entries_wf(),
    ensures
        vmo_read_outcome(*sub, *handles, *old(mem), *final(mem), handle_val, user_ptr, offset, len, r),
{
    if len == 0 {
        return ok_to_ret(0);
    }
    if len > MAX_VMO_TRANSFER {
        return err_to_ret(RX_ERR_INVALID_ARGS);
    }
    if !mem.is_valid(user_ptr) {
        return err_to_ret(RX_ERR_INVALID_ARGS);
    }
    let handle = match lookup_vmo_from_handle(handles, &sub.registry, handle_val, RIGHTS_READ) {
        Ok(h) => h,
        Err(err) => {
            return err_to_ret(err);
        },
    };
    let vmo = match sub.registry.get(handle.id) {
        Some(v) => v,
        None => {
            return err_to_ret(RX_ERR_NOT_FOUND);
        },
    };
    proof {
        sub.registry.lemma_find_wf(handle.id);
    }
    let mut kernel_buf = zeroed(len);
    let bytes_read = match vmo.read(offset, &mut kernel_buf) {
        Ok(n) => n,
        Err(err) => {
            return err_to_ret(err);
        },
    };
    kernel_buf.truncate(bytes_read);
    proof {
        assert(kernel_buf@ =~= read_bytes(vmo.data@, offset as int, bytes_read as int));
    }
    match mem.copy_to_user(user_ptr, kernel_buf.as_slice()) {
        Ok(()) => {},
        Err(err) => {
            return err_to_ret(err);
        },
    }
    ok_to_ret(bytes_read)
}

/// Outcome of writing `len` bytes of user memory at `user_ptr` into a VMO at `offset`: `r` is the result and a name ending in `_after` is that state after the call.
pub open spec fn vmo_write_outcome(
    sub: VmoSubsystem,
    sub_after: VmoSubsystem,
    handles: HandleTable,
    mem: UserMemory,
    handle_val: u32,
    user_ptr: usize,
    offset: usize,
    len: usize,
    r: SyscallRet,
) -> bool {
    &&& sub_after.next_id == sub.next_id
    &&& ({
        let unchanged = sub_after.registry.table == sub.registry.table;
        if len == 0 {
            r == 0 && unchanged
        } else if len > MAX_VMO_TRANSFER || !mem.valid_addr(user_ptr) {
            r == -RX_ERR_INVALID_ARGS && unchanged
        } else {
            match vmo_for_handle(handles, sub.registry, handle_val, RIGHTS_WRITE) {
                Err(e) => r == -e && unchanged,
                Ok(h) => {
                    let v = sub.registry.find(h.id)->0;
                    if !mem.range_ok(user_ptr, len) {
                        r == -RX_ERR_INVALID_ARGS && unchanged
                    } else if offset > v.size || len > v.size - offset {
                        r == -RX_ERR_OUT_OF_RANGE && unchanged
                    } else {
                        &&& r == len
                        &&& updated_such_that(sub.registry.table, sub_after.registry.table, h.id,
                            |w: Vmo| w.wf() && w.id == v.id && w.size == v.size && w.flags == v.flags
                                && w.data@ == data_after_write(v.data@, offset as int, mem.bytes_at(user_ptr, len)))
                    }
                },
            }
        }
    })
}

/// Write `len` bytes from user memory at `user_ptr` into the VMO behind
/// `handle_val` (which needs the write right) at `offset`, returning how
/// many bytes were written.
pub fn sys_vmo_write_impl(sub: &mut VmoSubsystem, handles: &HandleTable, mem: &UserMemory, handle_val: u32, user_ptr: usize, offset: usize, len: usize) -> (r: SyscallRet)
    requires
        old(sub).registry.wf(),
        handles.wf(),
        old(sub).registry.entries_wf(),
    ensures
        old(sub).registry.entries_wf() ==> final(sub).registry.entries_wf(),
        final(sub).registry.wf(),
        vmo_write_outcome(*old(sub), *final(sub), *handles, *mem, handle_val, user_ptr, offset, len, r),
{
    if len == 0 {
        return ok_to_ret(0);
    }
    if len > MAX_VMO_TRANSFER {
        return err_to_ret(RX_ERR_INVALID_ARGS);
    }
    if !mem.is_valid(user_ptr) {
        return err_to_ret(RX_ERR_INVALID_ARGS);
    }
    let handle = match lookup_vmo_from_handle(handles, &sub.registry, handle_val, RIGHTS_WRITE) {
        Ok(h) => h,
        Err(err) => {
            return err_to_ret(err);
        },
    };
    let kernel_buf = match mem.copy_from_user(user_ptr, len) {
        Ok(b) => b,
        Err(err) => {
            return err_to_ret(err);
        },
    };
    proof {
        old(sub).registry.lemma_find_wf(handle.id);
    }
    match sub.registry.get(handle.id) {
        Some(vmo) => {
            if offset > vmo.size || len > vmo.size - offset {
                return err_to_ret(RX_ERR_OUT_OF_RANGE);
            }
        },
        None => {
            return err_to_ret(RX_ERR_NOT_FOUND);
        },
    }
    let ghost before = sub.registry;
    match sub.registry.table.get_mut(handle.id) {
        Some(vmo) => {
            let r = match vmo.write(offset, kernel_buf.as_slice()) {
                Ok(n) => ok_to_ret(n),
                Err(err) => err_to_ret(err),
            };
            proof {
                if before.entries_wf() {
                    let h = slot_of(before.table.slots@, handle.id);
                    lemma_slot_store_keeps_entries_wf(before, sub.registry, h);
                }
            }
            r
        },
        None => {
            proof {
                assert forall|id: u64| #[trigger] sub.registry.find(id) == before.find(id) by {}
            }
            err_to_ret(RX_ERR_NOT_FOUND)
        },
    }
}

/// Outcome of cloning `size` bytes at `offset` of a VMO: `r` is the result and a name ending in `_after` is that state after the call.
pub open spec fn vmo_clone_outcome(
    sub: VmoSubsystem,
    sub_after: VmoSubsystem,
    handles: HandleTable,
    handles_after: HandleTable,
    handle_val: u32,
    offset: usize,
    size: usize,
    r: SyscallRet,
) -> bool {
    &&& ({
        let unchanged = sub_after == sub && handles_after == handles;
        if !page_sized(size) {
            r == -RX_ERR_INVALID_ARGS && unchanged
        } else {
            match vmo_for_handle(handles, sub.registry, handle_val, RIGHTS_READ | RIGHTS_DUPLICATE) {
                Err(e) => r == -e && unchanged,
                Ok(h) => {
                    let p = sub.registry.find(h.id)->0;
                    if offset > p.size || size > p.size - offset {
                        r == -RX_ERR_OUT_OF_RANGE && unchanged
                    } else {
                        let id = sub.next_id;
                        let rr = insert_result(sub.registry.table, id);
                        &&& inserted_such_that(sub.registry.table, sub_after.registry.table, id, rr,
                            |v: Vmo| v.wf() && v.id == id && v.size == size && v.flags.bits == VMO_FLAG_COW
                                && v.data@ == clone_data(p.data@, offset as int, size as int))
                        &&& match rr {
                            Err(err) => r == -err && sub_after.next_id == sub.next_id && handles_after == handles,
                            Ok(_) => {
                                &&& r == (#[verifier::truncate] (id as u32)) as isize
                                &&& sub_after.next_id == id.wrapping_add(1)
                                &&& install_post(handles, handles_after, #[verifier::truncate] (id as u32),
                                    Handle { obj_type: ObjectType::Vmo, id, rights: RIGHTS_DEFAULT | RIGHTS_WRITE })
                            },
                        }
                    }
                },
            }
        }
    })
}

/// Clone `size` bytes at `offset` of the VMO behind `handle_val` (which
/// needs the read and duplicate rights) into a new copy-on-write VMO, and
/// create a handle to the clone (default rights plus write), whose value is
/// the clone's id.
pub fn sys_vmo_clone_impl(sub: &mut VmoSubsystem, handles: &mut HandleTable, handle_val: u32, offset: usize, size: usize) -> (r: SyscallRet)
    requires
        old(sub).registry.wf(),
        old(handles).wf(),
        old(sub).registry.entries_wf(),
    ensures
        old(sub).registry.entries_wf() ==> final(sub).registry.entries_wf(),
        final(sub).registry.wf(),
        final(handles).wf(),
        vmo_clone_outcome(*old(sub), *final(sub), *old(handles), *final(handles), handle_val, offset,
            size, r),
{
    if size == 0 || (size & 0xFFF) != 0 {
        return err_to_ret(RX_ERR_INVALID_ARGS);
    }
    let handle = match lookup_vmo_from_handle(handles, &sub.registry, handle_val, RIGHTS_READ | RIGHTS_DUPLICATE) {
        Ok(h) => h,
        Err(err) => {
            return err_to_ret(err);
        },
    };
    let id = sub.next_id;
    let vmo = match sub.registry.get(handle.id) {
        Some(parent) => {
            proof {
                old(sub).registry.lemma_find_wf(handle.id);
            }
            match parent.clone(id, offset, size) {
                Ok(v) => v,
                Err(err) => {
                    return err_to_ret(err);
                },
            }
        },
        None => {
            return err_to_ret(RX_ERR_NOT_FOUND);
        },
    };
    let ghost before = sub.registry;
    let vmo_id = match sub.registry.insert(vmo) {
        Ok(id) => id,
        Err(err) => {
            return err_to_ret(err);
        },
    };
    proof {
        if before.entries_wf() {
            let pos = insert_pos(before.table.slots@, before.table.next_index as nat, id)->0;
            lemma_insert_pos_in(before.table.slots@, before.table.next_index as nat, id);
            lemma_slot_store_keeps_entries_wf(before, sub.registry, pos);
        }
    }
    sub.next_id = sub.next_id.wrapping_add(1);
    let handle_value = #[verifier::truncate] (vmo_id as u32);
    let _ = handles.install(handle_value, Handle::new(ObjectType::Vmo, vmo_id, RIGHTS_DEFAULT | RIGHTS_WRITE));
    ok_to_ret(handle_value as usize)
}

/// VMO subsystem statistics.
#[derive(Clone, Copy, Debug)]
pub struct VmoStats {
    pub total_vmos: usize,
    pub total_pages: usize,
    pub committed_pages: usize,
}

/// Current VMO statistics: how many VMOs are registered (pages are not
/// tracked).
pub fn get_stats(sub: &VmoSubsystem) -> (st: VmoStats)
    ensures
        st.total_vmos == sub.registry.table.count,
        st.total_pages == 0,
        st.committed_pages == 0,
{
    VmoStats { total_vmos: sub.registry.count(), total_pages: 0, committed_pages: 0 }
}

/// Initialize the VMO syscall subsystem (nothing to set up).
pub fn init() {
}

/// Storing a well-formed VMO in one slot keeps every stored VMO well
/// formed.
pub proof fn lemma_slot_store_keeps_entries_wf(r: VmoRegistry, r2: VmoRegistry, pos: int)
    requires
        r.entries_wf(),
        0 <= pos < r.table.slots@.len(),
        r2.table.slots@ == r.table.slots@.update(pos, r2.table.slots@[pos]),
        r2.table.slots@[pos] matches Some(e) ==> e.1.wf(),
    ensures
        r2.entries_wf(),
{
    assert forall|i: int| 0 <= i < r2.table.slots@.len() && (#[trigger] r2.table.slots@[i]) is Some
        implies (r2.table.slots@[i]->0).1.wf() by {
        if i != pos {
            assert(r2.table.slots@[i] == r.table.slots@[i]);
        }
    }
}

/// Law: what a write puts into a VMO a read at the same offset gives back.
/// After `len` bytes of user memory at `src` are written at `offset` of the
/// VMO behind `hv`, reading `len` bytes at `offset` through the same handle
/// (which may read) into user memory at `dst` returns `len` and stores
/// exactly the bytes written.
pub proof fn lemma_vmo_write_then_read(
    sub: VmoSubsystem,
    sub2: VmoSubsystem,
    handles: HandleTable,
    mem: UserMemory,
    hv: u32,
    src: usize,
    offset: usize,
    len: usize,
    r1: SyscallRet,
    mem2: UserMemory,
    mem3: UserMemory,
    dst: usize,
    r2: SyscallRet,
)
    requires
        sub.registry.wf(),
        vmo_write_outcome(sub, sub2, handles, mem, hv, src, offset, len, r1),
        r1 == len,
        len > 0,
        handles.lookup(hv) matches Some(h) && h.rights & RIGHTS_READ == RIGHTS_READ,
        mem2.valid_addr(dst),
        mem2.range_ok(dst, len),
        vmo_read_outcome(sub2, handles, mem2, mem3, hv, dst, offset, len, r2),
    ensures
        r2 == len,
        mem3.bytes@ == mem2.written(dst, mem.bytes_at(src, len)),
{
    let h = handles.lookup(hv)->0;
    let v = sub.registry.find(h.id)->0;
    let t = sub.registry.table.slots@;
    let t2 = sub2.registry.table.slots@;
    let p = slot_of(t, h.id);
    lemma_slot_of(t, h.id);
    lemma_lookup_update(t, p, t2[p], h.id);
    assert(t2 == t.update(p, t2[p]));
    let w = sub2.registry.find(h.id)->0;
    assert(w.data@ == data_after_write(v.data@, offset as int, mem.bytes_at(src, len)));
    lemma_write_then_read(v.data@, offset as int, mem.bytes_at(src, len));
}

} // verus!

//! FIFOs: bounded byte queues of fixed-size elements, created in pairs, and
//! the syscalls that create, write and read them.  A FIFO is named by its id
//! directly; the value user space passes as a handle is that id.
use vstd::prelude::*;
use crate::status::{Status, RX_ERR_BAD_HANDLE, RX_ERR_INVALID_ARGS, RX_ERR_NO_RESOURCES, RX_ERR_PEER_CLOSED, RX_ERR_SHOULD_WAIT};
use crate::registry::{HomeTable, home_slot, home_updated_such_that};
use crate::usercopy::{UserMemory, le_bytes, write_seq, stored_le};
use crate::{SyscallRet, err_to_ret, ok_to_ret};
use std::collections::VecDeque;

pub mod fifo_options;

verus! {

/// Capacity of the FIFO registry.
pub const MAX_FIFOS: usize = 32768;

/// Largest number of elements a FIFO holds.
pub const MAX_FIFO_ELEMENTS: usize = 65536;

/// Largest element size, in bytes.
pub const MAX_FIFO_ELEM_SIZE: usize = 4096;

/// One side of a FIFO pair: a queue of at most `capacity` elements of
/// `elem_size` bytes, kept as bytes (oldest first).
pub struct FifoEntry {
    pub id: u64,
    pub elem_size: usize,
    pub capacity: usize,
    pub data: VecDeque<u8>,
    pub peer_id: u64,
    pub closed: bool,
}

impl FifoEntry {
    /// The byte capacity fits in a machine word and the queue within it.
    pub open spec fn wf(&self) -> bool {
        &&& self.capacity * self.elem_size <= usize::MAX
        &&& self.data@.len() <= self.capacity * self.elem_size
    }

    /// An empty, open FIFO with no peer yet.
    pub fn new(id: u64, elem_size: usize, capacity: usize) -> (f: FifoEntry)
        ensures
            capacity * elem_size <= usize::MAX ==> f.wf(),
            f.id == id,
            f.elem_size == elem_size,
            f.capacity == capacity,
            f.data@.len() == 0,
            f.peer_id == 0,
            !f.closed,
    {
        FifoEntry { id, elem_size, capacity, data: VecDeque::new(), peer_id: 0, closed: false }
    }

    /// Number of whole elements queued.
    pub fn available_read(&self) -> (n: usize)
        requires
            self.elem_size > 0,
        ensures
            n == (self.data@.len() as int) / (self.elem_size as int),
    {
        self.data.len() / self.elem_size
    }

    /// Number of whole elements that still fit.
    pub fn available_write(&self) -> (n: usize)
        requires
            self.wf(),
            self.elem_size > 0,
        ensures
            n == (self.capacity * self.elem_size - self.data@.len()) / (self.elem_size as int),
    {
        (self.capacity * self.elem_size - self.data.len()) / self.elem_size
    }

    /// Queue as many bytes of `bytes` as fit, returning how many were
    /// queued.  A closed FIFO refuses with `RX_ERR_PEER_CLOSED`, a full one
    /// with `RX_ERR_SHOULD_WAIT`.
    pub fn write(&mut self, bytes: &[u8]) -> (r: Result<usize, Status>)
        requires
            old(self).wf(),
        ensures
            final(self).wf(),
            final(self).id == old(self).id,
            final(self).elem_size == old(self).elem_size,
            final(self).capacity == old(self).capacity,
            final(self).peer_id == old(self).peer_id,
            final(self).closed == old(self).closed,
            ({
                let avail = old(self).capacity * old(self).elem_size - old(self).data@.len();
                let n = if bytes@.len() < avail { bytes@.len() as int } else { avail };
                if old(self).closed {
                    r == Err::<usize, Status>(RX_ERR_PEER_CLOSED) && final(self).data@ == old(self).data@
                } else if avail == 0 {
                    r == Err::<usize, Status>(RX_ERR_SHOULD_WAIT) && final(self).data@ == old(self).data@
                } else {
                    r == Ok::<usize, Status>(n as usize) && final(self).data@ == old(self).data@ + bytes@.subrange(0, n)
                }
            }),
    {
        if self.closed {
            return Err(RX_ERR_PEER_CLOSED);
        }
        let avail = (self.capacity * self.elem_size) - self.data.len();
        if avail == 0 {
            return Err(RX_ERR_SHOULD_WAIT);
        }
        let to_write = if bytes.len() < avail { bytes.len() } else { avail };
        let mut i: usize = 0;
        while i < to_write
            invariant
                i <= to_write,
                to_write <= bytes@.len(),
                self.data@ == old(self).data@ + bytes@.subrange(0, i as int),
                self.id == old(self).id,
                self.elem_size == old(self).elem_size,
                self.capacity == old(self).capacity,
                self.peer_id == old(self).peer_id,
                self.closed == old(self).closed,
            decreases to_write - i,
        {
            self.data.push_back(bytes[i]);
            i = i + 1;
            proof {
                assert(self.data@ =~= old(self).data@ + bytes@.subrange(0, i as int));
            }
        }
        Ok(to_write)
    }

    /// Move the oldest queued bytes, as many as `buf` holds, to the front of
    /// `buf`, returning how many were moved.  An empty FIFO refuses with
    /// `RX_ERR_PEER_CLOSED` once closed and `RX_ERR_SHOULD_WAIT` before.
    pub fn read(&mut self, buf: &mut Vec<u8>) -> (r: Result<usize, Status>)
        requires
            old(self).wf(),
        ensures
            final(self).wf(),
            final(self).id == old(self).id,
            final(self).elem_size == old(self).elem_size,
            final(self).capacity == old(self).capacity,
            final(self).peer_id == old(self).peer_id,
            final(self).closed == old(self).closed,
            final(buf)@.len() == old(buf)@.len(),
            ({
                let d = old(self).data@;
                let n = if old(buf)@.len() < d.len() { old(buf)@.len() as int } else { d.len() as int };
                if d.len() == 0 {
                    r == Err::<usize, Status>(if old(self).closed { RX_ERR_PEER_CLOSED } else { RX_ERR_SHOULD_WAIT })
                        && final(self).data@ == d && final(buf)@ == old(buf)@
                } else {
                    &&& r == Ok::<usize, Status>(n as usize)
                    &&& final(self).data@ == d.subrange(n, d.len() as int)
                    &&& final(buf)@ == d.subrange(0, n) + old(buf)@.subrange(n, old(buf)@.len() as int)
                }
            }),
    {
        if self.data.len() == 0 {
            if self.closed {
                return Err(RX_ERR_PEER_CLOSED);
            }
            return Err(RX_ERR_SHOULD_WAIT);
        }
        let dlen = self.data.len();
        let cap = buf.len();
        let to_read = if cap < dlen { cap } else { dlen };
        let mut i: usize = 0;
        while i < to_read
            invariant
                i <= to_read,
                to_read <= dlen,
                to_read <= cap,
                dlen == old(self).data@.len(),
                self.data@ == old(self).data@.subrange(i as int, dlen as int),
                self.id == old(self).id,
                self.elem_size == old(self).elem_size,
                self.capacity == old(self).capacity,
                self.peer_id == old(self).peer_id,
                self.closed == old(self).closed,
                cap == old(buf)@.len(),
                buf@.len() == cap,
                forall|k: int| 0 <= k < i ==> #[trigger] buf@[k] == old(self).data@[k],
                forall|k: int| i <= k < cap ==> #[trigger] buf@[k] == old(buf)@[k],
            decreases to_read - i,
        {
            match self.data.pop_front() {
                Some(b) => {
                    buf.set(i, b);
                },
                None => {},
            }
            i = i + 1;
            proof {
                assert(self.data@ =~= old(self).data@.subrange(i as int, dlen as int));
            }
        }
        proof {
            assert(buf@ =~= old(self).data@.subrange(0, to_read as int) + old(buf)@.subrange(to_read as int, cap as int));
        }
        Ok(to_read)
    }

    /// Mark the FIFO closed.
    pub fn close(&mut self)
        ensures
            final(self).closed,
            final(self).id == old(self).id,
            final(self).elem_size == old(self).elem_size,
            final(self).capacity == old(self).capacity,
            final(self).peer_id == old(self).peer_id,
            final(self).data@ == old(self).data@,
    {
        self.closed = true;
    }

    pub fn is_closed(&self) -> (b: bool)
        ensures
            b == self.closed,
    {
        self.closed
    }
}

/// Every FIFO known to the kernel, each in the home slot of its id.
pub struct FifoRegistry {
    pub table: HomeTable<FifoEntry>,
}

impl FifoRegistry {
    pub open spec fn wf(&self) -> bool {
        &&& self.table.wf()
        &&& self.table.slots@.len() == MAX_FIFOS
    }

    /// FIFO registered under `id`, as a lookup sees it.
    pub open spec fn find(&self, id: u64) -> Option<FifoEntry> {
        self.table.find(id)
    }

    /// Every registered FIFO is well formed, with elements of at least one
    /// byte.
    pub open spec fn entries_wf(&self) -> bool {
        forall|i: int| 0 <= i < self.table.slots@.len() && #[trigger] self.table.slots@[i] is Some
            ==> (self.table.slots@[i]->0).1.wf() && (self.table.slots@[i]->0).1.elem_size > 0
    }

    /// An empty registry of `MAX_FIFOS` slots.
    pub fn new() -> (r: FifoRegistry)
        ensures
            r.wf(),
            r.table.slots@.len() == MAX_FIFOS,
            r.table.count == 0,
            r.table.next_index == 0,
            forall|i: int| 0 <= i < MAX_FIFOS ==> r.table.slots@[i] is None,
    {
        FifoRegistry { table: HomeTable::new(MAX_FIFOS) }
    }

    /// Place `fifo` in the home slot of `id`; a taken slot is
    /// `RX_ERR_NO_RESOURCES`.
    pub fn insert(&mut self, id: u64, fifo: FifoEntry) -> (r: Result<(), Status>)
        requires
            old(self).wf(),
        ensures
            final(self).wf(),
            final(self).table.next_index == old(self).table.next_index,
            ({
                let h = home_slot(id, old(self).table.slots@.len()) as int;
                if old(self).table.slots@[h] is None {
                    &&& r is Ok
                    &&& final(self).table.slots@ == old(self).table.slots@.update(h, Some((id, fifo)))
                    &&& final(self).table.count == old(self).table.count.wrapping_add(1)
                } else {
                    r == Err::<(), Status>(RX_ERR_NO_RESOURCES) && *final(self) == *old(self)
                }
            }),
    {
        self.table.insert_home(id, fifo)
    }

    /// FIFO registered under `id`.
    pub fn get(&self, id: u64) -> (r: Option<&FifoEntry>)
        requires
            self.wf(),
        ensures
            r matches Some(v) ==> self.find(id) == Some(*v),
            r is None ==> self.find(id) is None,
    {
        self.table.get(id)
    }

    /// Empty the home slot of `id` when it holds `id`'s entry; otherwise
    /// `RX_ERR_NOT_FOUND`, and nothing changes.
    pub fn remove(&mut self, id: u64) -> (r: Result<(), Status>)
        requires
            old(self).wf(),
        ensures
            final(self).wf(),
            final(self).table.next_index == old(self).table.next_index,
            ({
                let h = home_slot(id, old(self).table.slots@.len()) as int;
                if old(self).table.slots@[h] is Some && (old(self).table.slots@[h]->0).0 == id {
                    &&& r is Ok
                    &&& final(self).table.slots@ == old(self).table.slots@.update(h, None)
                    &&& final(self).table.count == old(self).table.count.wrapping_sub(1)
                } else {
                    r == Err::<(), Status>(crate::status::RX_ERR_NOT_FOUND) && *final(self) == *old(self)
                }
            }),
    {
        self.table.remove_id(id)
    }

    /// Number of FIFOs counted as registered.
    pub fn count(&self) -> (c: usize)
        ensures
            c == self.table.count,
    {
        self.table.count
    }
}

/// The FIFOs of the kernel and the next FIFO id to hand out.
pub struct FifoSubsystem {
    pub registry: FifoRegistry,
    pub next_id: u64,
}

impl FifoSubsystem {
    /// No FIFOs; ids are handed out from 1.
    pub fn new() -> (s: FifoSubsystem)
        ensures
            s.registry.wf(),
            s.registry.table.count == 0,
            s.next_id == 1,
            forall|id: u64| s.registry.find(id) is None,
    {
        FifoSubsystem { registry: FifoRegistry::new(), next_id: 1 }
    }
}

/// Whether slot `pos` of `s` holds a fresh, empty, open FIFO `id` paired
/// with `peer`.
pub open spec fn fresh_fifo_at(s: Seq<Option<(u64, FifoEntry)>>, pos: int, id: u64, peer: u64, elem_size: usize, count: usize) -> bool {
    &&& s[pos] is Some
    &&& (s[pos]->0).0 == id
    &&& (s[pos]->0).1.wf()
    &&& (s[pos]->0).1.id == id
    &&& (s[pos]->0).1.peer_id == peer
    &&& (s[pos]->0).1.elem_size == elem_size
    &&& (s[pos]->0).1.capacity == count
    &&& (s[pos]->0).1.data@.len() == 0
    &&& !(s[pos]->0).1.closed
}

/// Outcome of creating a FIFO pair: `r` is the result and a name ending in `_after` is that state after the call.
pub open spec fn fifo_create_outcome(sub: FifoSubsystem, sub_after: FifoSubsystem, mem: UserMemory, mem_after: UserMemory, count: usize, elem_size: usize, options: u32, handle0_out: usize, handle1_out: usize, r: SyscallRet) -> bool {
    &&& mem_after.base == mem.base
    &&& ({
        let id0 = sub.next_id;
        let id1 = id0.wrapping_add(1);
        let t0 = sub.registry.table;
        let t = sub_after.registry.table;
        let n = t0.slots@.len();
        let h0 = home_slot(id0, n) as int;
        let h1 = home_slot(id1, n) as int;
        if options != fifo_options::NONE || count == 0 || count > MAX_FIFO_ELEMENTS || elem_size == 0 || elem_size > MAX_FIFO_ELEM_SIZE {
            r == -RX_ERR_INVALID_ARGS && sub_after == sub && mem_after == mem
        } else {
            &&& sub_after.next_id == id0.wrapping_add(2)
            &&& t.next_index == t0.next_index
            &&& if t0.slots@[h0] is Some || h1 == h0 || t0.slots@[h1] is Some {
                &&& r == -RX_ERR_NO_RESOURCES
                &&& t.slots@ == t0.slots@
                &&& t.count == if t0.slots@[h0] is Some { t0.count } else { t0.count.wrapping_add(1).wrapping_sub(1) }
                &&& mem_after == mem
            } else {
                let m1 = if handle0_out == 0 { mem.bytes@ } else { mem.written(handle0_out, le_bytes(id0, 8)) };
                let c2 = t0.count.wrapping_add(1).wrapping_add(1);
                if handle0_out != 0 && !mem.range_ok(handle0_out, 8) {
                    &&& r == -RX_ERR_INVALID_ARGS
                    &&& t.slots@ == t0.slots@
                    &&& t.count == c2.wrapping_sub(1).wrapping_sub(1)
                    &&& mem_after == mem
                } else if handle1_out != 0 && !mem.range_ok(handle1_out, 8) {
                    &&& r == -RX_ERR_INVALID_ARGS
                    &&& t.slots@ == t0.slots@
                    &&& t.count == c2.wrapping_sub(1).wrapping_sub(1)
                    &&& mem_after.bytes@ == m1
                } else {
                    &&& r == 0
                    &&& t.slots@ == t0.slots@.update(h0, t.slots@[h0]).update(h1, t.slots@[h1])
                    &&& fresh_fifo_at(t.slots@, h0, id0, id1, elem_size, count)
                    &&& fresh_fifo_at(t.slots@, h1, id1, id0, elem_size, count)
                    &&& t.count == c2
                    &&& mem_after.bytes@ == if handle1_out == 0 { m1 } else { write_seq(m1, mem.base, handle1_out, le_bytes(id1, 8)) }
                }
            }
        }
    })
}

/// Create a pair of FIFOs of `count` elements of `elem_size` bytes each
/// (options must be none, `count` in 1..=65536, `elem_size` in 1..=4096),
/// and store their ids at `handle0_out` and `handle1_out` where those are
/// non-zero.  Two ids are consumed even when creation then fails; each FIFO
/// sits in the home slot of its id, and when a store to user memory fails
/// both home slots are emptied again.
pub fn sys_fifo_create_impl(sub: &mut FifoSubsystem, mem: &mut UserMemory, count: usize, elem_size: usize, options: u32, handle0_out: usize, handle1_out: usize) -> (r: SyscallRet)
    requires
        old(sub).registry.wf(),
    ensures
        final(sub).registry.wf(),
        old(sub).registry.entries_wf() ==> final(sub).registry.entries_wf(),
        fifo_create_outcome(*old(sub), *final(sub), *old(mem), *final(mem), count, elem_size, options, handle0_out, handle1_out, r),
{
    if options != fifo_options::NONE {
        return err_to_ret(RX_ERR_INVALID_ARGS);
    }
    if count == 0 || count > MAX_FIFO_ELEMENTS {
        return err_to_ret(RX_ERR_INVALID_ARGS);
    }
    if elem_size == 0 || elem_size > MAX_FIFO_ELEM_SIZE {
        return err_to_ret(RX_ERR_INVALID_ARGS);
    }
    let id0 = sub.next_id;
    let id1 = id0.wrapping_add(1);
    sub.next_id = id0.wrapping_add(2);
    assert(count * elem_size <= MAX_FIFO_ELEMENTS * MAX_FIFO_ELEM_SIZE) by (nonlinear_arith)
        requires
            count <= MAX_FIFO_ELEMENTS,
            elem_size <= MAX_FIFO_ELEM_SIZE,
    ;
    let mut fifo0 = FifoEntry::new(id0, elem_size, count);
    let mut fifo1 = FifoEntry::new(id1, elem_size, count);
    fifo0.peer_id = id1;
    fifo1.peer_id = id0;
    match sub.registry.insert(id0, fifo0) {
        Ok(()) => {},
        Err(err) => {
            return err_to_ret(err);
        },
    }
    match sub.registry.insert(id1, fifo1) {
        Ok(()) => {},
        Err(err) => {
            let _ = sub.registry.remove(id0);
            proof {
                assert(sub.registry.table.slots@ =~= old(sub).registry.table.slots@);
            }
            return err_to_ret(err);
        },
    }
    let ghost t2 = sub.registry.table;
    match mem.store_opt(handle0_out, id0, 8) {
        Ok(()) => {},
        Err(err) => {
            let _ = sub.registry.remove(id0);
            let _ = sub.registry.remove(id1);
            proof {
                assert(sub.registry.table.slots@ =~= old(sub).registry.table.slots@);
            }
            return err_to_ret(err);
        },
    }
    let ghost m1 = *mem;
    match mem.store_opt(handle1_out, id1, 8) {
        Ok(()) => {},
        Err(err) => {
            let _ = sub.registry.remove(id0);
            let _ = sub.registry.remove(id1);
            proof {
                assert(sub.registry.table.slots@ =~= old(sub).registry.table.slots@);
            }
            return err_to_ret(err);
        },
    }
    proof {
        let h0 = home_slot(id0, old(sub).registry.table.slots@.len()) as int;
        let h1 = home_slot(id1, old(sub).registry.table.slots@.len()) as int;
        assert(sub.registry.table.slots@ =~= old(sub).registry.table.slots@.update(h0, sub.registry.table.slots@[h0]).update(h1, sub.registry.table.slots@[h1]));
    }
    ok_to_ret(0)
}

/// Outcome of writing elements to a FIFO: `r` is the result and a name ending in `_after` is that state after the call.
pub open spec fn fifo_write_outcome(sub: FifoSubsystem, sub_after: FifoSubsystem, mem: UserMemory, mem_after: UserMemory, handle_val: u32, elem_size: usize, data: usize, count: usize, actual_count_out: usize, r: SyscallRet) -> bool {
    &&& sub_after.registry.entries_wf()
    &&& sub_after.next_id == sub.next_id
    &&& mem_after.base == mem.base
    &&& ({
        let unchanged = sub_after.registry.table == sub.registry.table && mem_after == mem;
        let total = (count * elem_size) as usize;
        match sub.registry.find(handle_val as u64) {
            None => r == -RX_ERR_BAD_HANDLE && unchanged,
            Some(f) => if f.elem_size != elem_size || !mem.range_ok(data, total) {
                r == -RX_ERR_INVALID_ARGS && unchanged
            } else {
                match sub.registry.find(f.peer_id) {
                    None => r == -RX_ERR_PEER_CLOSED && unchanged,
                    Some(g) => {
                        let bytes = if total == 0 { Seq::<u8>::empty() } else { mem.bytes_at(data, total) };
                        let avail = g.capacity * g.elem_size - g.data@.len();
                        let n = if total < avail { total as int } else { avail };
                        if g.closed {
                            r == -RX_ERR_PEER_CLOSED && unchanged
                        } else if avail == 0 {
                            r == -RX_ERR_SHOULD_WAIT && unchanged
                        } else {
                            &&& home_updated_such_that(sub.registry.table, sub_after.registry.table, f.peer_id,
                                |w: FifoEntry| w.wf() && w.elem_size > 0 && w.id == g.id && w.elem_size == g.elem_size
                                    && w.capacity == g.capacity && w.peer_id == g.peer_id && w.closed == g.closed
                                    && w.data@ == g.data@ + bytes.subrange(0, n))
                            &&& if actual_count_out != 0 && !mem.range_ok(actual_count_out, 8) {
                                r == -RX_ERR_INVALID_ARGS && mem_after == mem
                            } else {
                                r == 0 && mem_after.bytes@ == stored_le(mem.bytes@, mem.base, actual_count_out,
                                    (n / (g.elem_size as int)) as u64, 8)
                            }
                        }
                    },
                }
            },
        }
    })
}

/// Queue `count` elements of `elem_size` bytes from user memory at `data`
/// on the peer of the FIFO `handle_val` (where the other end reads them), as
/// many bytes as fit, and store the number of whole elements queued at
/// `actual_count_out` when that is non-zero.  A missing or closed peer is
/// `RX_ERR_PEER_CLOSED`.
pub fn sys_fifo_write_impl(sub: &mut FifoSubsystem, mem: &mut UserMemory, handle_val: u32, elem_size: usize, data: usize, count: usize, actual_count_out: usize) -> (r: SyscallRet)
    requires
        old(sub).registry.wf(),
        old(sub).registry.entries_wf(),
        count * elem_size <= usize::MAX,
    ensures
        final(sub).registry.wf(),
        fifo_write_outcome(*old(sub), *final(sub), *old(mem), *final(mem), handle_val, elem_size, data, count, actual_count_out, r),
{
    let fifo_id = handle_val as u64;
    let total_bytes = count * elem_size;
    let peer_id = match sub.registry.get(fifo_id) {
        Some(f) => {
            if f.elem_size != elem_size {
                return err_to_ret(RX_ERR_INVALID_ARGS);
            }
            f.peer_id
        },
        None => {
            return err_to_ret(RX_ERR_BAD_HANDLE);
        },
    };
    let buf = match mem.copy_from_user(data, total_bytes) {
        Ok(b) => b,
        Err(err) => {
            return err_to_ret(err);
        },
    };
    match sub.registry.get(peer_id) {
        Some(g) => {
            if g.closed {
                return err_to_ret(RX_ERR_PEER_CLOSED);
            }
            if g.capacity * g.elem_size - g.data.len() == 0 {
                return err_to_ret(RX_ERR_SHOULD_WAIT);
            }
        },
        None => {
            return err_to_ret(RX_ERR_PEER_CLOSED);
        },
    }
    proof {
        let h = home_slot(peer_id, sub.registry.table.slots@.len()) as int;
        assert(sub.registry.table.slots@[h] is Some);
    }
    let ghost before = sub.registry.table;
    let actual_written = match sub.registry.table.get_mut(peer_id) {
        Some(g) => {
            let es = g.elem_size;
            match g.write(buf.as_slice()) {
                Ok(n) => n / es,
                Err(err) => {
                    return err_to_ret(err);
                },
            }
        },
        None => {
            return err_to_ret(RX_ERR_PEER_CLOSED);
        },
    };
    proof {
        assert forall|i: int| 0 <= i < sub.registry.table.slots@.len() && #[trigger] sub.registry.table.slots@[i] is Some implies (sub.registry.table.slots@[i]->0).1.wf() && (sub.registry.table.slots@[i]->0).1.elem_size > 0 by {
            if i != home_slot(peer_id, before.slots@.len()) as int {
                assert(sub.registry.table.slots@[i] == before.slots@[i]);
            }
        }
    }
    match mem.store_opt(actual_count_out, actual_written as u64, 8) {
        Ok(()) => {},
        Err(err) => {
            return err_to_ret(err);
        },
    }
    ok_to_ret(0)
}

/// Outcome of reading elements from a FIFO: `r` is the result and a name ending in `_after` is that state after the call.
pub open spec fn fifo_read_outcome(sub: FifoSubsystem, sub_after: FifoSubsystem, mem: UserMemory, mem_after: UserMemory, handle_val: u32, elem_size: usize, data: usize, count: usize, actual_count_out: usize, r: SyscallRet) -> bool {
    &&& sub_after.registry.entries_wf()
    &&& sub_after.next_id == sub.next_id
    &&& mem_after.base == mem.base
    &&& ({
        let unchanged = sub_after.registry.table == sub.registry.table && mem_after == mem;
        let total = (count * elem_size) as int;
        match sub.registry.find(handle_val as u64) {
            None => r == -RX_ERR_BAD_HANDLE && unchanged,
            Some(f) => if f.elem_size != elem_size {
                r == -RX_ERR_INVALID_ARGS && unchanged
            } else if f.data@.len() == 0 {
                r == -(if f.closed { RX_ERR_PEER_CLOSED } else { RX_ERR_SHOULD_WAIT }) && unchanged
            } else {
                let d = f.data@;
                let n = if total < d.len() { total } else { d.len() as int };
                let a = n / (elem_size as int);
                let m1 = if a > 0 { write_seq(mem.bytes@, mem.base, data, d.subrange(0, a * elem_size)) } else { mem.bytes@ };
                &&& home_updated_such_that(sub.registry.table, sub_after.registry.table, handle_val as u64,
                    |g: FifoEntry| g.wf() && g.elem_size > 0 && g.id == f.id && g.elem_size == f.elem_size && g.capacity == f.capacity
                        && g.peer_id == f.peer_id && g.closed == f.closed && g.data@ == d.subrange(n, d.len() as int))
                &&& if a > 0 && !mem.range_ok(data, (a * elem_size) as usize) {
                    r == -RX_ERR_INVALID_ARGS && mem_after == mem
                } else if actual_count_out != 0 && !mem.range_ok(actual_count_out, 8) {
                    r == -RX_ERR_INVALID_ARGS && mem_after.bytes@ == m1
                } else {
                    r == 0 && mem_after.bytes@ == stored_le(m1, mem.base, actual_count_out, a as u64, 8)
                }
            },
        }
    })
}

/// Take up to `count` elements of `elem_size` bytes (as many queued bytes
/// as that covers) from the FIFO `handle_val`, copy the whole elements taken
/// to user memory at `data`, and store their number at `actual_count_out`
/// when that is non-zero.  The bytes are consumed even when a copy to user
/// memory fails.
#[verifier::rlimit(50)]
pub fn sys_fifo_read_impl(sub: &mut FifoSubsystem, mem: &mut UserMemory, handle_val: u32, elem_size: usize, data: usize, count: usize, actual_count_out: usize) -> (r: SyscallRet)
    requires
        old(sub).registry.wf(),
        old(sub).registry.entries_wf(),
        count * elem_size <= usize::MAX,
    ensures
        final(sub).registry.wf(),
        final(sub).registry.entries_wf(),
        final(mem).base == old(mem).base,
        fifo_read_outcome(*old(sub), *final(sub), *old(mem), *final(mem), handle_val, elem_size, data, count,
            actual_count_out, r),
{
    let fifo_id = handle_val as u64;
    let total_bytes = count * elem_size;
    match sub.registry.get(fifo_id) {
        Some(f) => {
            if f.elem_size != elem_size {
                return err_to_ret(RX_ERR_INVALID_ARGS);
            }
            if f.data.len() == 0 {
                if f.closed {
                    return err_to_ret(RX_ERR_PEER_CLOSED);
                }
                return err_to_ret(RX_ERR_SHOULD_WAIT);
            }
        },
        None => {
            return err_to_ret(RX_ERR_BAD_HANDLE);
        },
    }
    proof {
        let h = home_slot(fifo_id, sub.registry.table.slots@.len()) as int;
        assert(sub.registry.table.slots@[h] is Some);
    }
    let mut buf = zeroed(total_bytes);
    let ghost before = sub.registry.table;
    let ghost d0 = sub.registry.find(fifo_id)->0.data@;
    let n = match sub.registry.table.get_mut(fifo_id) {
        Some(f) => {
            match f.read(&mut buf) {
                Ok(n) => n,
                Err(err) => {
                    return err_to_ret(err);
                },
            }
        },
        None => {
            return err_to_ret(RX_ERR_BAD_HANDLE);
        },
    };
    proof {
        assert forall|i: int| 0 <= i < sub.registry.table.slots@.len() && #[trigger] sub.registry.table.slots@[i] is Some implies (sub.registry.table.slots@[i]->0).1.wf() && (sub.registry.table.slots@[i]->0).1.elem_size > 0 by {
            if i != home_slot(fifo_id, before.slots@.len()) as int {
                assert(sub.registry.table.slots@[i] == before.slots@[i]);
            }
        }
    }
    let actual_read = n / elem_size;
    proof {
        assert(actual_read * elem_size <= n) by (nonlinear_arith)
            requires
                actual_read == n / elem_size,
                elem_size > 0,
        ;
    }
    if actual_read > 0 {
        let bytes_to_copy = actual_read * elem_size;
        buf.truncate(bytes_to_copy);
        proof {
            assert(buf@ =~= d0.subrange(0, (actual_read * elem_size) as int));
        }
        match mem.copy_to_user(data, buf.as_slice()) {
            Ok(()) => {},
            Err(err) => {
                return err_to_ret(err);
            },
        }
    }
    match mem.store_opt(actual_count_out, actual_read as u64, 8) {
        Ok(()) => {},
        Err(err) => {
            return err_to_ret(err);
        },
    }
    ok_to_ret(0)
}

/// A kernel buffer of `len` zero bytes.
fn zeroed(len: usize) -> (v: Vec<u8>)
    ensures
        v@.len() == len,
        forall|i: int| 0 <= i < len ==> v@[i] == 0,
{
    let mut v: Vec<u8> = Vec::new();
    let mut i: usize = 0;
    while i < len
        invariant
            i <= len,
            v@.len() == i,
            forall|k: int| 0 <= k < i ==> v@[k] == 0,
        decreases len - i,
    {
        v.push(0);
        i = i + 1;
    }
    v
}

/// FIFO subsystem statistics.
#[derive(Clone, Copy, Debug)]
pub struct FifoStats {
    pub total_fifos: usize,
    pub total_bytes_queued: u64,
}

/// Current FIFO statistics: how many FIFOs are registered (queued bytes
/// are not tracked).
pub fn get_stats(sub: &FifoSubsystem) -> (st: FifoStats)
    ensures
        st.total_fifos == sub.registry.table.count,
        st.total_bytes_queued == 0,
{
    FifoStats { total_fifos: sub.registry.count(), total_bytes_queued: 0 }
}

/// Initialize the FIFO syscall subsystem (nothing to set up).
pub fn init() {
}

/// Elements leave a FIFO in the order they were queued: reading `k` bytes
/// from a queue `d` that was then extended by `b` gives the first `k` bytes
/// of `d` when `k` is within `d`, and otherwise all of `d` followed by the
/// start of `b`; what stays is the rest, in order.
pub proof fn lemma_fifo_order(d: Seq<u8>, b: Seq<u8>, k: int)
    requires
        0 <= k <= d.len() + b.len(),
    ensures
        k <= d.len() ==> (d + b).subrange(0, k) == d.subrange(0, k),
        k > d.len() ==> (d + b).subrange(0, k) == d + b.subrange(0, k - d.len()),
        (d + b).subrange(k, (d + b).len() as int) == if k <= d.len() {
            d.subrange(k, d.len() as int) + b
        } else {
            b.subrange(k - d.len(), b.len() as int)
        },
{
    if k <= d.len() {
        assert((d + b).subrange(0, k) =~= d.subrange(0, k));
        assert((d + b).subrange(k, (d + b).len() as int) =~= d.subrange(k, d.len() as int) + b);
    } else {
        assert((d + b).subrange(0, k) =~= d + b.subrange(0, k - d.len()));
        assert((d + b).subrange(k, (d + b).len() as int) =~= b.subrange(k - d.len(), b.len() as int));
    }
}

/// The two FIFOs of a pair, whose ids follow one another, have different
/// home slots in a registry of `MAX_FIFOS` slots.
pub proof fn lemma_pair_home_slots_differ(id0: u64)
    ensures
        home_slot(id0, MAX_FIFOS as nat) != home_slot(id0.wrapping_add(1), MAX_FIFOS as nat),
{
    let id1 = id0.wrapping_add(1);
    assert(((id0 as usize) as nat) % 32768 != ((id1 as usize) as nat) % 32768) by (bit_vector)
        requires
            id1 == id0.wrapping_add(1),
    ;
}

/// Law: elements written on one end of a fresh FIFO pair are read, in
/// order, from the other end.  After a pair is created (ids `id0` and
/// `id0 + 1`), writing `k` elements (at most the capacity) from user memory
/// at `src` through the first end and then reading `k` elements through the
/// second end into user memory at `dst` succeed, and the bytes read are the
/// bytes written.
pub proof fn lemma_fifo_pair_round_trip(
    s0: FifoSubsystem,
    s1: FifoSubsystem,
    m0: UserMemory,
    m1: UserMemory,
    count: usize,
    elem_size: usize,
    h0_out: usize,
    h1_out: usize,
    r0: SyscallRet,
    s2: FifoSubsystem,
    mw: UserMemory,
    mw2: UserMemory,
    src: usize,
    k: usize,
    r1: SyscallRet,
    s3: FifoSubsystem,
    mr: UserMemory,
    mr2: UserMemory,
    dst: usize,
    r2: SyscallRet,
)
    requires
        s0.registry.wf(),
        s0.next_id < u32::MAX,
        fifo_create_outcome(s0, s1, m0, m1, count, elem_size, fifo_options::NONE, h0_out, h1_out, r0),
        r0 == 0,
        0 < k <= count,
        mw.range_ok(src, (k * elem_size) as usize),
        fifo_write_outcome(s1, s2, mw, mw2, s0.next_id as u32, elem_size, src, k, 0, r1),
        mr.range_ok(dst, (k * elem_size) as usize),
        fifo_read_outcome(s2, s3, mr, mr2, (s0.next_id + 1) as u32, elem_size, dst, k, 0, r2),
    ensures
        r1 == 0,
        r2 == 0,
        mr2.bytes@ == mr.written(dst, mw.bytes_at(src, (k * elem_size) as usize)),
{
    let id0 = s0.next_id;
    let id1 = id0.wrapping_add(1);
    assert(id1 == id0 + 1);
    lemma_pair_home_slots_differ(id0);
    let n = s0.registry.table.slots@.len();
    let h0 = home_slot(id0, n) as int;
    let h1 = home_slot(id1, n) as int;
    let t1 = s1.registry.table.slots@;
    let f0 = (t1[h0]->0).1;
    let g0 = (t1[h1]->0).1;
    assert(s1.registry.find(id0) == Some(f0));
    assert(s1.registry.find(id1) == Some(g0));
    assert(k * elem_size <= count * elem_size) by (nonlinear_arith)
        requires
            k <= count,
    ;
    let total = (k * elem_size) as usize;
    assert(total > 0) by (nonlinear_arith)
        requires
            k > 0,
            elem_size > 0,
            total == k * elem_size,
    ;
    let bytes = mw.bytes_at(src, total);
    let t2 = s2.registry.table.slots@;
    let w = (t2[h1]->0).1;
    assert(w.data@ =~= bytes);
    assert(s2.registry.find(id1) == Some(w));
    assert((k * elem_size) / (elem_size as int) == k) by (nonlinear_arith)
        requires
            elem_size > 0,
    ;
    assert(w.data@.subrange(0, k * elem_size) =~= bytes);
}

} // verus!

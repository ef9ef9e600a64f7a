//! Sockets: byte streams with a control plane, created in pairs, and the
//! syscalls that create, write, read, share, accept and shut them down.  A
//! socket is named by its id directly; the value user space passes as a
//! handle is that id.
use vstd::prelude::*;
use crate::status::{Status, RX_ERR_ALREADY_EXISTS, RX_ERR_BAD_HANDLE, RX_ERR_INVALID_ARGS, RX_ERR_NO_RESOURCES, RX_ERR_NOT_FOUND, RX_ERR_PEER_CLOSED, RX_ERR_SHOULD_WAIT};
use crate::registry::{HomeTable, home_slot, home_updated_such_that};
use crate::usercopy::{UserMemory, le_bytes, write_seq, stored_le};
use crate::{SyscallRet, err_to_ret, ok_to_ret};
use std::collections::VecDeque;

pub mod socket_options;
pub mod shutdown_options;

verus! {

/// Capacity of the socket registry.
pub const MAX_SOCKETS: usize = 65536;

/// Control bytes beyond which further control writes are refused.
pub const MAX_CONTROL_BYTES: usize = 4096;

/// One end of a socket pair: queued data and control bytes (oldest first),
/// the peer's id, which directions are shut down, and a socket offered for
/// acceptance.
pub struct SocketEntry {
    pub id: u64,
    pub data: VecDeque<u8>,
    pub control: VecDeque<u8>,
    pub peer_id: u64,
    pub write_shutdown: bool,
    pub read_shutdown: bool,
    pub pending_share: Option<u64>,
}

/// What reading up to `cap` bytes from queue `q` leaves: the bytes read and
/// the rest of the queue.
pub open spec fn take_front(q: Seq<u8>, cap: int) -> (Seq<u8>, Seq<u8>) {
    let n = if cap < q.len() { cap } else { q.len() as int };
    (q.subrange(0, n), q.subrange(n, q.len() as int))
}

/// Copy the oldest bytes of `q`, as many as `buf` holds, to the front of
/// `buf` and drop them from `q`.
fn pop_front_into(q: &mut VecDeque<u8>, buf: &mut Vec<u8>) -> (n: usize)
    ensures
        n as int == (if old(buf)@.len() < old(q)@.len() { old(buf)@.len() as int } else { old(q)@.len() as int }),
        final(q)@ == take_front(old(q)@, old(buf)@.len() as int).1,
        final(buf)@ == take_front(old(q)@, old(buf)@.len() as int).0 + old(buf)@.subrange(n as int, old(buf)@.len() as int),
{
    let qlen = q.len();
    let cap = buf.len();
    let to_read = if cap < qlen { cap } else { qlen };
    let mut i: usize = 0;
    while i < to_read
        invariant
            i <= to_read,
            to_read <= qlen,
            to_read <= cap,
            qlen == old(q)@.len(),
            q@ == old(q)@.subrange(i as int, qlen as int),
            cap == old(buf)@.len(),
            buf@.len() == cap,
            forall|k: int| 0 <= k < i ==> #[trigger] buf@[k] == old(q)@[k],
            forall|k: int| i <= k < cap ==> #[trigger] buf@[k] == old(buf)@[k],
        decreases to_read - i,
    {
        match q.pop_front() {
            Some(b) => {
                buf.set(i, b);
            },
            None => {},
        }
        i = i + 1;
        proof {
            assert(q@ =~= old(q)@.subrange(i as int, qlen as int));
        }
    }
    proof {
        assert(buf@ =~= old(q)@.subrange(0, to_read as int) + old(buf)@.subrange(to_read as int, cap as int));
    }
    to_read
}

/// Append `bytes` to `q`.
fn push_all(q: &mut VecDeque<u8>, bytes: &[u8])
    ensures
        final(q)@ == old(q)@ + bytes@,
{
    let mut i: usize = 0;
    while i < bytes.len()
        invariant
            i <= bytes@.len(),
            q@ == old(q)@ + bytes@.subrange(0, i as int),
        decreases bytes@.len() - i,
    {
        q.push_back(bytes[i]);
        i = i + 1;
        proof {
            assert(q@ =~= old(q)@ + bytes@.subrange(0, i as int));
        }
    }
    proof {
        assert(bytes@.subrange(0, bytes@.len() as int) =~= bytes@);
    }
}

impl SocketEntry {
    /// An open socket with empty queues and no peer yet.
    pub fn new(id: u64) -> (s: SocketEntry)
        ensures
            s.id == id,
            s.data@.len() == 0,
            s.control@.len() == 0,
            s.peer_id == 0,
            !s.write_shutdown,
            !s.read_shutdown,
            s.pending_share is None,
    {
        SocketEntry {
            id,
            data: VecDeque::new(),
            control: VecDeque::new(),
            peer_id: 0,
            write_shutdown: false,
            read_shutdown: false,
            pending_share: None,
        }
    }

    /// Queue `bytes` as data, unless writing was shut down.
    pub fn write(&mut self, bytes: &[u8]) -> (r: Result<usize, Status>)
        ensures
            old(self).write_shutdown ==> r == Err::<usize, Status>(RX_ERR_PEER_CLOSED) && *final(self) == *old(self),
            !old(self).write_shutdown ==> r == Ok::<usize, Status>(bytes@.len() as usize)
                && *final(self) == (SocketEntry { data: final(self).data, ..*old(self) })
                && final(self).data@ == old(self).data@ + bytes@,
    {
        if self.write_shutdown {
            return Err(RX_ERR_PEER_CLOSED);
        }
        push_all(&mut self.data, bytes);
        Ok(bytes.len())
    }

    /// Queue `bytes` as control bytes, unless writing was shut down or more
    /// than `MAX_CONTROL_BYTES` control bytes are already queued.
    pub fn write_control(&mut self, bytes: &[u8]) -> (r: Result<(), Status>)
        ensures
            old(self).write_shutdown ==> r == Err::<(), Status>(RX_ERR_PEER_CLOSED) && *final(self) == *old(self),
            !old(self).write_shutdown && old(self).control@.len() > MAX_CONTROL_BYTES ==> r == Err::<(), Status>(RX_ERR_NO_RESOURCES)
                && *final(self) == *old(self),
            !old(self).write_shutdown && old(self).control@.len() <= MAX_CONTROL_BYTES ==> r is Ok
                && *final(self) == (SocketEntry { control: final(self).control, ..*old(self) })
                && final(self).control@ == old(self).control@ + bytes@,
    {
        if self.write_shutdown {
            return Err(RX_ERR_PEER_CLOSED);
        }
        if self.control.len() > MAX_CONTROL_BYTES {
            return Err(RX_ERR_NO_RESOURCES);
        }
        push_all(&mut self.control, bytes);
        Ok(())
    }

    /// Move the oldest data bytes, as many as `buf` holds, to the front of
    /// `buf`.  Reading shut down is `RX_ERR_PEER_CLOSED`; no data is
    /// `RX_ERR_SHOULD_WAIT`.
    pub fn read(&mut self, buf: &mut Vec<u8>) -> (r: Result<usize, Status>)
        ensures
            old(self).read_shutdown ==> r == Err::<usize, Status>(RX_ERR_PEER_CLOSED) && *final(self) == *old(self) && *final(buf) == *old(buf),
            !old(self).read_shutdown && old(self).data@.len() == 0 ==> r == Err::<usize, Status>(RX_ERR_SHOULD_WAIT)
                && *final(self) == *old(self) && *final(buf) == *old(buf),
            !old(self).read_shutdown && old(self).data@.len() > 0 ==> ({
                let (got, rest) = take_front(old(self).data@, old(buf)@.len() as int);
                &&& r == Ok::<usize, Status>(got.len() as usize)
                &&& *final(self) == (SocketEntry { data: final(self).data, ..*old(self) })
                &&& final(self).data@ == rest
                &&& final(buf)@ == got + old(buf)@.subrange(got.len() as int, old(buf)@.len() as int)
            }),
    {
        if self.read_shutdown {
            return Err(RX_ERR_PEER_CLOSED);
        }
        if self.data.len() == 0 {
            return Err(RX_ERR_SHOULD_WAIT);
        }
        let n = pop_front_into(&mut self.data, buf);
        Ok(n)
    }

    /// Move the oldest control bytes, as many as `buf` holds, to the front
    /// of `buf`; no control bytes is `RX_ERR_SHOULD_WAIT`.
    pub fn read_control(&mut self, buf: &mut Vec<u8>) -> (r: Result<usize, Status>)
        ensures
            old(self).control@.len() == 0 ==> r == Err::<usize, Status>(RX_ERR_SHOULD_WAIT) && *final(self) == *old(self)
                && *final(buf) == *old(buf),
            old(self).control@.len() > 0 ==> ({
                let (got, rest) = take_front(old(self).control@, old(buf)@.len() as int);
                &&& r == Ok::<usize, Status>(got.len() as usize)
                &&& *final(self) == (SocketEntry { control: final(self).control, ..*old(self) })
                &&& final(self).control@ == rest
                &&& final(buf)@ == got + old(buf)@.subrange(got.len() as int, old(buf)@.len() as int)
            }),
    {
        if self.control.len() == 0 {
            return Err(RX_ERR_SHOULD_WAIT);
        }
        let n = pop_front_into(&mut self.control, buf);
        Ok(n)
    }

    /// Offer socket `socket_id` for acceptance; only one offer may be
    /// pending.
    pub fn share(&mut self, socket_id: u64) -> (r: Result<(), Status>)
        ensures
            old(self).pending_share is Some ==> r == Err::<(), Status>(RX_ERR_ALREADY_EXISTS) && *final(self) == *old(self),
            old(self).pending_share is None ==> r is Ok && *final(self) == (SocketEntry { pending_share: Some(socket_id), ..*old(self) }),
    {
        if self.pending_share.is_some() {
            return Err(RX_ERR_ALREADY_EXISTS);
        }
        self.pending_share = Some(socket_id);
        Ok(())
    }

    /// Take the pending offer; none is `RX_ERR_SHOULD_WAIT`.
    pub fn accept(&mut self) -> (r: Result<u64, Status>)
        ensures
            old(self).pending_share is None ==> r == Err::<u64, Status>(RX_ERR_SHOULD_WAIT) && *final(self) == *old(self),
            old(self).pending_share matches Some(id) ==> r == Ok::<u64, Status>(id)
                && *final(self) == (SocketEntry { pending_share: None, ..*old(self) }),
    {
        match self.pending_share.take() {
            Some(id) => Ok(id),
            None => Err(RX_ERR_SHOULD_WAIT),
        }
    }

    /// Shut down reading and/or writing as the option bits say.
    pub fn shutdown(&mut self, options: u32) -> (r: Result<(), Status>)
        ensures
            r is Ok,
            *final(self) == (SocketEntry {
                read_shutdown: old(self).read_shutdown || options & shutdown_options::READ != 0,
                write_shutdown: old(self).write_shutdown || options & shutdown_options::WRITE != 0,
                ..*old(self)
            }),
    {
        if options & shutdown_options::READ != 0 {
            self.read_shutdown = true;
        }
        if options & shutdown_options::WRITE != 0 {
            self.write_shutdown = true;
        }
        Ok(())
    }

    pub fn has_data(&self) -> (b: bool)
        ensures
            b == (self.data@.len() > 0),
    {
        self.data.len() != 0
    }

    pub fn has_control(&self) -> (b: bool)
        ensures
            b == (self.control@.len() > 0),
    {
        self.control.len() != 0
    }
}

/// Every socket known to the kernel, each in the home slot of its id.
pub struct SocketRegistry {
    pub table: HomeTable<SocketEntry>,
}

impl SocketRegistry {
    pub open spec fn wf(&self) -> bool {
        self.table.wf()
    }

    /// Socket registered under `id`, as a lookup sees it.
    pub open spec fn find(&self, id: u64) -> Option<SocketEntry> {
        self.table.find(id)
    }

    /// An empty registry of `MAX_SOCKETS` slots.
    pub fn new() -> (r: SocketRegistry)
        ensures
            r.wf(),
            r.table.slots@.len() == MAX_SOCKETS,
            r.table.count == 0,
            r.table.next_index == 0,
            forall|i: int| 0 <= i < MAX_SOCKETS ==> r.table.slots@[i] is None,
    {
        SocketRegistry { table: HomeTable::new(MAX_SOCKETS) }
    }

    /// Place `socket` in the home slot of `id`; a taken slot is
    /// `RX_ERR_NO_RESOURCES`.
    pub fn insert(&mut self, id: u64, socket: SocketEntry) -> (r: Result<(), Status>)
        requires
            old(self).wf(),
        ensures
            final(self).wf(),
            final(self).table.next_index == old(self).table.next_index,
            ({
                let h = home_slot(id, old(self).table.slots@.len()) as int;
                if old(self).table.slots@[h] is None {
                    &&& r is Ok
                    &&& final(self).table.slots@ == old(self).table.slots@.update(h, Some((id, socket)))
                    &&& final(self).table.count == old(self).table.count.wrapping_add(1)
                } else {
                    r == Err::<(), Status>(RX_ERR_NO_RESOURCES) && *final(self) == *old(self)
                }
            }),
    {
        self.table.insert_home(id, socket)
    }

    /// Socket registered under `id`.
    pub fn get(&self, id: u64) -> (r: Option<&SocketEntry>)
        requires
            self.wf(),
        ensures
            r matches Some(v) ==> self.find(id) == Some(*v),
            r is None ==> self.find(id) is None,
    {
        self.table.get(id)
    }

    /// Empty the home slot of `id` when it holds `id`'s entry; otherwise
    /// `RX_ERR_NOT_FOUND`, and nothing changes.
    pub fn remove(&mut self, id: u64) -> (r: Result<(), Status>)
        requires
            old(self).wf(),
        ensures
            final(self).wf(),
            final(self).table.next_index == old(self).table.next_index,
            ({
                let h = home_slot(id, old(self).table.slots@.len()) as int;
                if old(self).table.slots@[h] is Some && (old(self).table.slots@[h]->0).0 == id {
                    &&& r is Ok
                    &&& final(self).table.slots@ == old(self).table.slots@.update(h, None)
                    &&& final(self).table.count == old(self).table.count.wrapping_sub(1)
                } else {
                    r == Err::<(), Status>(RX_ERR_NOT_FOUND) && *final(self) == *old(self)
                }
            }),
    {
        self.table.remove_id(id)
    }

    /// Number of sockets counted as registered.
    pub fn count(&self) -> (c: usize)
        ensures
            c == self.table.count,
    {
        self.table.count
    }
}

/// The sockets of the kernel and the next socket id to hand out.
pub struct SocketSubsystem {
    pub registry: SocketRegistry,
    pub next_id: u64,
}

impl SocketSubsystem {
    /// No sockets; ids are handed out from 1.
    pub fn new() -> (s: SocketSubsystem)
        ensures
            s.registry.wf(),
            s.registry.table.count == 0,
            s.next_id == 1,
            forall|id: u64| s.registry.find(id) is None,
    {
        SocketSubsystem { registry: SocketRegistry::new(), next_id: 1 }
    }
}

/// Whether slot `pos` of `s` holds a fresh, open socket `id` paired with
/// `peer`.
pub open spec fn fresh_socket_at(s: Seq<Option<(u64, SocketEntry)>>, pos: int, id: u64, peer: u64) -> bool {
    &&& s[pos] is Some
    &&& (s[pos]->0).0 == id
    &&& (s[pos]->0).1.id == id
    &&& (s[pos]->0).1.peer_id == peer
    &&& (s[pos]->0).1.data@.len() == 0
    &&& (s[pos]->0).1.control@.len() == 0
    &&& !(s[pos]->0).1.write_shutdown
    &&& !(s[pos]->0).1.read_shutdown
    &&& (s[pos]->0).1.pending_share is None
}

/// Whether `a` and `b` agree on everything but their two queues.
pub open spec fn same_but_queues(a: SocketEntry, b: SocketEntry) -> bool {
    &&& a.id == b.id
    &&& a.peer_id == b.peer_id
    &&& a.write_shutdown == b.write_shutdown
    &&& a.read_shutdown == b.read_shutdown
    &&& a.pending_share == b.pending_share
}

/// Window contents `mem` (starting at `base`) after the 8-byte value `v`
/// is stored at `out`, when `out` is non-zero.
pub open spec fn stored_u64(mem: Seq<u8>, base: usize, out: usize, v: u64) -> Seq<u8> {
    if out == 0 {
        mem
    } else {
        write_seq(mem, base, out, le_bytes(v, 8))
    }
}

/// Create a pair of sockets (options must be none) and store their ids at
/// `handle0_out` and `handle1_out` where those are non-zero.  Two ids are
/// consumed even when creation then fails; each socket sits in the home slot
/// of its id, and when a store to user memory fails both home slots are
/// emptied again.
pub fn sys_socket_create_impl(sub: &mut SocketSubsystem, mem: &mut UserMemory, options: u32, handle0_out: usize, handle1_out: usize) -> (r: SyscallRet)
    requires
        old(sub).registry.wf(),
    ensures
        final(sub).registry.wf(),
        final(mem).base == old(mem).base,
        ({
            let id0 = old(sub).next_id;
            let id1 = id0.wrapping_add(1);
            let t0 = old(sub).registry.table;
            let t = final(sub).registry.table;
            let n = t0.slots@.len();
            let h0 = home_slot(id0, n) as int;
            let h1 = home_slot(id1, n) as int;
            if options != socket_options::NONE {
                r == -RX_ERR_INVALID_ARGS && *final(sub) == *old(sub) && *final(mem) == *old(mem)
            } else {
                &&& final(sub).next_id == id0.wrapping_add(2)
                &&& t.next_index == t0.next_index
                &&& if t0.slots@[h0] is Some || h1 == h0 || t0.slots@[h1] is Some {
                    &&& r == -RX_ERR_NO_RESOURCES
                    &&& t.slots@ == t0.slots@
                    &&& t.count == if t0.slots@[h0] is Some { t0.count } else { t0.count.wrapping_add(1).wrapping_sub(1) }
                    &&& *final(mem) == *old(mem)
                } else {
                    let m1 = stored_u64(old(mem).bytes@, old(mem).base, handle0_out, id0);
                    let c2 = t0.count.wrapping_add(1).wrapping_add(1);
                    if handle0_out != 0 && !old(mem).range_ok(handle0_out, 8) {
                        &&& r == -RX_ERR_INVALID_ARGS
                        &&& t.slots@ == t0.slots@
                        &&& t.count == c2.wrapping_sub(1).wrapping_sub(1)
                        &&& *final(mem) == *old(mem)
                    } else if handle1_out != 0 && !old(mem).range_ok(handle1_out, 8) {
                        &&& r == -RX_ERR_INVALID_ARGS
                        &&& t.slots@ == t0.slots@
                        &&& t.count == c2.wrapping_sub(1).wrapping_sub(1)
                        &&& final(mem).bytes@ == m1
                    } else {
                        &&& r == 0
                        &&& t.slots@ == t0.slots@.update(h0, t.slots@[h0]).update(h1, t.slots@[h1])
                        &&& fresh_socket_at(t.slots@, h0, id0, id1)
                        &&& fresh_socket_at(t.slots@, h1, id1, id0)
                        &&& t.count == c2
                        &&& final(mem).bytes@ == stored_u64(m1, old(mem).base, handle1_out, id1)
                    }
                }
            }
        }),
{
    if options != socket_options::NONE {
        return err_to_ret(RX_ERR_INVALID_ARGS);
    }
    let id0 = sub.next_id;
    let id1 = id0.wrapping_add(1);
    sub.next_id = id0.wrapping_add(2);
    let mut socket0 = SocketEntry::new(id0);
    let mut socket1 = SocketEntry::new(id1);
    socket0.peer_id = id1;
    socket1.peer_id = id0;
    match sub.registry.insert(id0, socket0) {
        Ok(()) => {},
        Err(err) => {
            return err_to_ret(err);
        },
    }
    match sub.registry.insert(id1, socket1) {
        Ok(()) => {},
        Err(err) => {
            let _ = sub.registry.remove(id0);
            proof {
                assert(sub.registry.table.slots@ =~= old(sub).registry.table.slots@);
            }
            return err_to_ret(err);
        },
    }
    match mem.store_opt(handle0_out, id0, 8) {
        Ok(()) => {},
        Err(err) => {
            let _ = sub.registry.remove(id0);
            let _ = sub.registry.remove(id1);
            proof {
                assert(sub.registry.table.slots@ =~= old(sub).registry.table.slots@);
            }
            return err_to_ret(err);
        },
    }
    match mem.store_opt(handle1_out, id1, 8) {
        Ok(()) => {},
        Err(err) => {
            let _ = sub.registry.remove(id0);
            let _ = sub.registry.remove(id1);
            proof {
                assert(sub.registry.table.slots@ =~= old(sub).registry.table.slots@);
            }
            return err_to_ret(err);
        },
    }
    proof {
        let h0 = home_slot(id0, old(sub).registry.table.slots@.len()) as int;
        let h1 = home_slot(id1, old(sub).registry.table.slots@.len()) as int;
        assert(sub.registry.table.slots@ =~= old(sub).registry.table.slots@.update(h0, sub.registry.table.slots@[h0]).update(h1, sub.registry.table.slots@[h1]));
    }
    ok_to_ret(0)
}

/// Queue `size` bytes from user memory at `buffer` on socket `handle_val`,
/// as data (option none) or control bytes (option control), and store the
/// number of bytes queued at `actual_out` when that is non-zero.
pub fn sys_socket_write_impl(sub: &mut SocketSubsystem, mem: &mut UserMemory, handle_val: u32, options: u32, buffer: usize, size: usize, actual_out: usize) -> (r: SyscallRet)
    requires
        old(sub).registry.wf(),
    ensures
        final(sub).registry.wf(),
        final(sub).next_id == old(sub).next_id,
        final(mem).base == old(mem).base,
        ({
            let unchanged = final(sub).registry.table == old(sub).registry.table && *final(mem) == *old(mem);
            let id = handle_val as u64;
            if size > 0 && buffer == 0 {
                r == -RX_ERR_INVALID_ARGS && unchanged
            } else {
                match old(sub).registry.find(id) {
                    None => r == -RX_ERR_BAD_HANDLE && unchanged,
                    Some(s) => if !old(mem).range_ok(buffer, size) || (options != socket_options::NONE && options != socket_options::CONTROL) {
                        r == -RX_ERR_INVALID_ARGS && unchanged
                    } else if s.write_shutdown {
                        r == -RX_ERR_PEER_CLOSED && unchanged
                    } else if options == socket_options::CONTROL && s.control@.len() > MAX_CONTROL_BYTES {
                        r == -RX_ERR_NO_RESOURCES && unchanged
                    } else {
                        let bytes = if size == 0 { Seq::<u8>::empty() } else { old(mem).bytes_at(buffer, size) };
                        &&& home_updated_such_that(old(sub).registry.table, final(sub).registry.table, id,
                            |e: SocketEntry| same_but_queues(e, s) && if options == socket_options::NONE {
                                e.data@ == s.data@ + bytes && e.control@ == s.control@
                            } else {
                                e.data@ == s.data@ && e.control@ == s.control@ + bytes
                            })
                        &&& if actual_out != 0 && !old(mem).range_ok(actual_out, 8) {
                            r == -RX_ERR_INVALID_ARGS && *final(mem) == *old(mem)
                        } else {
                            r == 0 && final(mem).bytes@ == stored_u64(old(mem).bytes@, old(mem).base, actual_out, size as u64)
                        }
                    },
                }
            }
        }),
{
    if size > 0 && buffer == 0 {
        return err_to_ret(RX_ERR_INVALID_ARGS);
    }
    let socket_id = handle_val as u64;
    match sub.registry.get(socket_id) {
        Some(_) => {},
        None => {
            return err_to_ret(RX_ERR_BAD_HANDLE);
        },
    }
    let buf = match mem.copy_from_user(buffer, size) {
        Ok(b) => b,
        Err(err) => {
            return err_to_ret(err);
        },
    };
    if options != socket_options::NONE && options != socket_options::CONTROL {
        return err_to_ret(RX_ERR_INVALID_ARGS);
    }
    match sub.registry.get(socket_id) {
        Some(s) => {
            if s.write_shutdown {
                return err_to_ret(RX_ERR_PEER_CLOSED);
            }
            if options == socket_options::CONTROL && s.control.len() > MAX_CONTROL_BYTES {
                return err_to_ret(RX_ERR_NO_RESOURCES);
            }
        },
        None => {
            return err_to_ret(RX_ERR_BAD_HANDLE);
        },
    }
    let actual = match sub.registry.table.get_mut(socket_id) {
        Some(s) => {
            if options == socket_options::NONE {
                match s.write(buf.as_slice()) {
                    Ok(n) => n,
                    Err(err) => {
                        return err_to_ret(err);
                    },
                }
            } else {
                match s.write_control(buf.as_slice()) {
                    Ok(()) => size,
                    Err(err) => {
                        return err_to_ret(err);
                    },
                }
            }
        },
        None => {
            return err_to_ret(RX_ERR_BAD_HANDLE);
        },
    };
    match mem.store_opt(actual_out, actual as u64, 8) {
        Ok(()) => {},
        Err(err) => {
            return err_to_ret(err);
        },
    }
    ok_to_ret(0)
}

/// A kernel buffer of `len` zero bytes.
fn zeroed(len: usize) -> (v: Vec<u8>)
    ensures
        v@.len() == len,
        forall|i: int| 0 <= i < len ==> v@[i] == 0,
{
    let mut v: Vec<u8> = Vec::new();
    let mut i: usize = 0;
    while i < len
        invariant
            i <= len,
            v@.len() == i,
            forall|k: int| 0 <= k < i ==> v@[k] == 0,
        decreases len - i,
    {
        v.push(0);
        i = i + 1;
    }
    v
}

/// Take up to `size` queued bytes from socket `handle_val`, data (option
/// none) or control bytes (option control), copy them to user memory at
/// `buffer`, and store their number at `actual_out` when that is non-zero.
/// The bytes are consumed even when a copy to user memory fails.
#[verifier::rlimit(40)]
pub fn sys_socket_read_impl(sub: &mut SocketSubsystem, mem: &mut UserMemory, handle_val: u32, options: u32, buffer: usize, size: usize, actual_out: usize) -> (r: SyscallRet)
    requires
        old(sub).registry.wf(),
    ensures
        final(sub).registry.wf(),
        final(sub).next_id == old(sub).next_id,
        final(mem).base == old(mem).base,
        ({
            let unchanged = final(sub).registry.table == old(sub).registry.table && *final(mem) == *old(mem);
            let id = handle_val as u64;
            if size > 0 && buffer == 0 {
                r == -RX_ERR_INVALID_ARGS && unchanged
            } else {
                match old(sub).registry.find(id) {
                    None => r == -RX_ERR_BAD_HANDLE && unchanged,
                    Some(s) => if options != socket_options::NONE && options != socket_options::CONTROL {
                        r == -RX_ERR_INVALID_ARGS && unchanged
                    } else if options == socket_options::NONE && s.read_shutdown {
                        r == -RX_ERR_PEER_CLOSED && unchanged
                    } else if (options == socket_options::NONE && s.data@.len() == 0) || (options == socket_options::CONTROL && s.control@.len() == 0) {
                        r == -RX_ERR_SHOULD_WAIT && unchanged
                    } else {
                        let q = if options == socket_options::NONE { s.data@ } else { s.control@ };
                        let (got, rest) = take_front(q, size as int);
                        let m1 = if got.len() > 0 { write_seq(old(mem).bytes@, old(mem).base, buffer, got) } else { old(mem).bytes@ };
                        &&& home_updated_such_that(old(sub).registry.table, final(sub).registry.table, id,
                            |e: SocketEntry| same_but_queues(e, s) && if options == socket_options::NONE {
                                e.data@ == rest && e.control@ == s.control@
                            } else {
                                e.data@ == s.data@ && e.control@ == rest
                            })
                        &&& if got.len() > 0 && !old(mem).range_ok(buffer, got.len() as usize) {
                            r == -RX_ERR_INVALID_ARGS && *final(mem) == *old(mem)
                        } else if actual_out != 0 && !old(mem).range_ok(actual_out, 8) {
                            r == -RX_ERR_INVALID_ARGS && final(mem).bytes@ == m1
                        } else {
                            r == 0 && final(mem).bytes@ == stored_u64(m1, old(mem).base, actual_out, got.len() as u64)
                        }
                    },
                }
            }
        }),
{
    if size > 0 && buffer == 0 {
        return err_to_ret(RX_ERR_INVALID_ARGS);
    }
    let socket_id = handle_val as u64;
    match sub.registry.get(socket_id) {
        Some(s) => {
            if options != socket_options::NONE && options != socket_options::CONTROL {
                return err_to_ret(RX_ERR_INVALID_ARGS);
            }
            if options == socket_options::NONE {
                if s.read_shutdown {
                    return err_to_ret(RX_ERR_PEER_CLOSED);
                }
                if s.data.len() == 0 {
                    return err_to_ret(RX_ERR_SHOULD_WAIT);
                }
            } else if s.control.len() == 0 {
                return err_to_ret(RX_ERR_SHOULD_WAIT);
            }
        },
        None => {
            return err_to_ret(RX_ERR_BAD_HANDLE);
        },
    }
    let mut buf = zeroed(size);
    let actual = match sub.registry.table.get_mut(socket_id) {
        Some(s) => {
            if options == socket_options::NONE {
                match s.read(&mut buf) {
                    Ok(n) => n,
                    Err(err) => {
                        return err_to_ret(err);
                    },
                }
            } else {
                match s.read_control(&mut buf) {
                    Ok(n) => n,
                    Err(err) => {
                        return err_to_ret(err);
                    },
                }
            }
        },
        None => {
            return err_to_ret(RX_ERR_BAD_HANDLE);
        },
    };
    if actual > 0 {
        buf.truncate(actual);
        match mem.copy_to_user(buffer, buf.as_slice()) {
            Ok(()) => {},
            Err(err) => {
                return err_to_ret(err);
            },
        }
    }
    match mem.store_opt(actual_out, actual as u64, 8) {
        Ok(()) => {},
        Err(err) => {
            return err_to_ret(err);
        },
    }
    ok_to_ret(0)
}

/// Offer socket `socket_to_share` for acceptance on socket `handle_val`;
/// both must exist and no offer may be pending.
pub fn sys_socket_share_impl(sub: &mut SocketSubsystem, handle_val: u32, socket_to_share: u32) -> (r: SyscallRet)
    requires
        old(sub).registry.wf(),
    ensures
        final(sub).registry.wf(),
        final(sub).next_id == old(sub).next_id,
        ({
            let unchanged = final(sub).registry.table == old(sub).registry.table;
            match old(sub).registry.find(handle_val as u64) {
                None => r == -RX_ERR_BAD_HANDLE && unchanged,
                Some(s) => if old(sub).registry.find(socket_to_share as u64) is None {
                    r == -RX_ERR_BAD_HANDLE && unchanged
                } else if s.pending_share is Some {
                    r == -RX_ERR_ALREADY_EXISTS && unchanged
                } else {
                    r == 0 && home_updated_such_that(old(sub).registry.table, final(sub).registry.table, handle_val as u64,
                        |e: SocketEntry| e == (SocketEntry { pending_share: Some(socket_to_share as u64), ..s }))
                },
            }
        }),
{
    let socket_id = handle_val as u64;
    let share_id = socket_to_share as u64;
    match sub.registry.get(socket_id) {
        Some(s) => {
            if sub.registry.get(share_id).is_none() {
                return err_to_ret(RX_ERR_BAD_HANDLE);
            }
            if s.pending_share.is_some() {
                return err_to_ret(RX_ERR_ALREADY_EXISTS);
            }
        },
        None => {
            return err_to_ret(RX_ERR_BAD_HANDLE);
        },
    }
    match sub.registry.table.get_mut(socket_id) {
        Some(s) => {
            match s.share(share_id) {
                Ok(()) => ok_to_ret(0),
                Err(err) => err_to_ret(err),
            }
        },
        None => err_to_ret(RX_ERR_BAD_HANDLE),
    }
}

/// Take the socket offered on socket `handle_val` and store its id at
/// `handle_out` when that is non-zero; the offer is taken even when the
/// store fails.
pub fn sys_socket_accept_impl(sub: &mut SocketSubsystem, mem: &mut UserMemory, handle_val: u32, handle_out: usize) -> (r: SyscallRet)
    requires
        old(sub).registry.wf(),
    ensures
        final(sub).registry.wf(),
        final(sub).next_id == old(sub).next_id,
        final(mem).base == old(mem).base,
        ({
            let unchanged = final(sub).registry.table == old(sub).registry.table && *final(mem) == *old(mem);
            match old(sub).registry.find(handle_val as u64) {
                None => r == -RX_ERR_BAD_HANDLE && unchanged,
                Some(s) => match s.pending_share {
                    None => r == -RX_ERR_SHOULD_WAIT && unchanged,
                    Some(acc) => {
                        &&& home_updated_such_that(old(sub).registry.table, final(sub).registry.table, handle_val as u64,
                            |e: SocketEntry| e == (SocketEntry { pending_share: None, ..s }))
                        &&& if handle_out != 0 && !old(mem).range_ok(handle_out, 8) {
                            r == -RX_ERR_INVALID_ARGS && *final(mem) == *old(mem)
                        } else {
                            r == 0 && final(mem).bytes@ == stored_u64(old(mem).bytes@, old(mem).base, handle_out, acc)
                        }
                    },
                },
            }
        }),
{
    let socket_id = handle_val as u64;
    match sub.registry.get(socket_id) {
        Some(s) => {
            if s.pending_share.is_none() {
                return err_to_ret(RX_ERR_SHOULD_WAIT);
            }
        },
        None => {
            return err_to_ret(RX_ERR_BAD_HANDLE);
        },
    }
    let accepted_id = match sub.registry.table.get_mut(socket_id) {
        Some(s) => {
            match s.accept() {
                Ok(id) => id,
                Err(err) => {
                    return err_to_ret(err);
                },
            }
        },
        None => {
            return err_to_ret(RX_ERR_BAD_HANDLE);
        },
    };
    match mem.store_opt(handle_out, accepted_id, 8) {
        Ok(()) => {},
        Err(err) => {
            return err_to_ret(err);
        },
    }
    ok_to_ret(0)
}

/// Shut down reading and/or writing on socket `handle_val`; option bits
/// outside the mask are refused.
pub fn sys_socket_shutdown_impl(sub: &mut SocketSubsystem, handle_val: u32, options: u32) -> (r: SyscallRet)
    requires
        old(sub).registry.wf(),
    ensures
        final(sub).registry.wf(),
        final(sub).next_id == old(sub).next_id,
        ({
            let unchanged = final(sub).registry.table == old(sub).registry.table;
            if options & shutdown_options::MASK != options {
                r == -RX_ERR_INVALID_ARGS && unchanged
            } else {
                match old(sub).registry.find(handle_val as u64) {
                    None => r == -RX_ERR_BAD_HANDLE && unchanged,
                    Some(s) => r == 0 && home_updated_such_that(old(sub).registry.table, final(sub).registry.table, handle_val as u64,
                        |e: SocketEntry| e == (SocketEntry {
                            read_shutdown: s.read_shutdown || options & shutdown_options::READ != 0,
                            write_shutdown: s.write_shutdown || options & shutdown_options::WRITE != 0,
                            ..s
                        })),
                }
            }
        }),
{
    if options & shutdown_options::MASK != options {
        return err_to_ret(RX_ERR_INVALID_ARGS);
    }
    let socket_id = handle_val as u64;
    match sub.registry.table.get_mut(socket_id) {
        Some(s) => {
            match s.shutdown(options) {
                Ok(()) => ok_to_ret(0),
                Err(err) => err_to_ret(err),
            }
        },
        None => err_to_ret(RX_ERR_BAD_HANDLE),
    }
}

/// Socket subsystem statistics.
#[derive(Clone, Copy, Debug)]
pub struct SocketStats {
    pub total_sockets: usize,
    pub total_bytes_sent: u64,
    pub total_bytes_received: u64,
}

/// Current socket statistics: how many sockets are registered (traffic is
/// not tracked).
pub fn get_stats(sub: &SocketSubsystem) -> (st: SocketStats)
    ensures
        st.total_sockets == sub.registry.table.count,
        st.total_bytes_sent == 0,
        st.total_bytes_received == 0,
{
    SocketStats { total_sockets: sub.registry.count(), total_bytes_sent: 0, total_bytes_received: 0 }
}

/// Initialize the socket syscall subsystem (nothing to set up).
pub fn init() {
}

/// Bytes come out of a stream in the order they went in: reading `a` bytes
/// and then `c` more gives the same bytes as reading `a + c` at once, and
/// leaves the same rest.
pub proof fn lemma_stream_read_in_pieces(q: Seq<u8>, a: int, c: int)
    requires
        0 <= a,
        0 <= c,
    ensures
        take_front(q, a).0 + take_front(take_front(q, a).1, c).0 == take_front(q, a + c).0,
        take_front(take_front(q, a).1, c).1 == take_front(q, a + c).1,
{
    assert(take_front(q, a).0 + take_front(take_front(q, a).1, c).0 =~= take_front(q, a + c).0);
    assert(take_front(take_front(q, a).1, c).1 =~= take_front(q, a + c).1);
}

/// What a read gives back of a write: bytes written behind those already
/// queued come out after them, and a read as large as the whole queue
/// returns everything written, leaving nothing.
pub proof fn lemma_stream_write_then_read(q: Seq<u8>, b: Seq<u8>)
    ensures
        take_front(q + b, q.len() as int).0 == q,
        take_front(q + b, q.len() as int).1 == b,
        take_front(q + b, (q.len() + b.len()) as int) == (q + b, Seq::<u8>::empty()),
{
    assert(take_front(q + b, q.len() as int).0 =~= q);
    assert(take_front(q + b, q.len() as int).1 =~= b);
    assert(take_front(q + b, (q.len() + b.len()) as int).0 =~= q + b);
    assert(take_front(q + b, (q.len() + b.len()) as int).1 =~= Seq::<u8>::empty());
}

} // verus!

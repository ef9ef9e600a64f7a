//! Channels: bidirectional message pipes made of two endpoints, and the
//! syscalls that create them and move messages through them.
use vstd::prelude::*;
use crate::status::{Status, RX_ERR_BAD_HANDLE, RX_ERR_BUFFER_TOO_SMALL, RX_ERR_INVALID_ARGS, RX_ERR_NOT_FOUND, RX_ERR_NO_RESOURCES, RX_ERR_PEER_CLOSED, RX_ERR_SHOULD_WAIT, RX_ERR_WRONG_TYPE, RX_ERR_ACCESS_DENIED};
use crate::registry::{SlotTable, ids_table, lemma_slot_of_ids, slot_of, lemma_slot_of, lemma_lookup_update, insert_post, insert_result, insert_pos, insert_pos_in, free_pattern, remove_post, home_slot, lemma_insert_pos_home, lemma_insert_pos_in, lemma_insert_pos_free, lemma_insert_pos_some, lemma_slot_of_only, holds, updated_such_that};
use crate::kobject::{Handle, HandleTable, ObjectType, Rights, RIGHTS_READ, RIGHTS_WRITE, RIGHTS_TRANSFER, pair_lookup};
use crate::usercopy::{UserMemory, le_field, field_at};
use crate::{SyscallRet, err_to_ret, ok_to_ret};

verus! {

/// Identifier of a channel endpoint.
pub type ChannelId = u64;

/// Capacity of the channel registry.
pub const MAX_CHANNELS: usize = 65536;

/// Largest message payload, in bytes.
pub const MAX_MSG_SIZE: usize = 65536;

/// Largest number of handles a message carries.
pub const MAX_MSG_HANDLES: usize = 64;

/// Read option: a message too large for the buffers may be dropped.
pub const CHANNEL_READ_MAY_DISCARD: u32 = 1;

/// A message: payload bytes and handle values.
pub struct Message {
    pub data: Vec<u8>,
    pub handles: Vec<u32>,
}

/// A message as plain sequences.
pub open spec fn msg_view(m: Message) -> (Seq<u8>, Seq<u32>) {
    (m.data@, m.handles@)
}

/// One endpoint of a channel: the id of the other endpoint, whether that
/// endpoint is still open, and the messages waiting to be read here.
pub struct Channel {
    pub id: ChannelId,
    pub peer: ChannelId,
    pub peer_alive: bool,
    pub messages: Vec<Message>,
}

impl Channel {
    /// The messages waiting at this endpoint, oldest first.
    pub open spec fn inbox(&self) -> Seq<(Seq<u8>, Seq<u32>)> {
        self.messages@.map_values(|m: Message| msg_view(m))
    }

    /// Two connected endpoints with empty queues, with ids `first_id` and
    /// the id after it.
    pub fn create(first_id: ChannelId) -> (r: Result<(Channel, Channel), Status>)
        ensures
            r matches Ok((a, b)) && a.id == first_id && a.peer == first_id.wrapping_add(1) && a.peer_alive && a.inbox().len() == 0
                && b.id == first_id.wrapping_add(1) && b.peer == first_id && b.peer_alive && b.inbox().len() == 0,
    {
        let second = first_id.wrapping_add(1);
        let a = Channel { id: first_id, peer: second, peer_alive: true, messages: Vec::new() };
        let b = Channel { id: second, peer: first_id, peer_alive: true, messages: Vec::new() };
        proof {
            assert(a.inbox() =~= Seq::empty());
            assert(b.inbox() =~= Seq::empty());
        }
        Ok((a, b))
    }

    /// Whether the other endpoint is still open.
    pub fn is_peer_alive(&self) -> (b: bool)
        ensures
            b == self.peer_alive,
    {
        self.peer_alive
    }

    /// Number of messages waiting at this endpoint.
    pub fn msg_count(&self) -> (n: usize)
        ensures
            n == self.inbox().len(),
    {
        self.messages.len()
    }

    /// Queue a message at this endpoint, behind those already waiting.
    pub fn deliver(&mut self, msg: Message)
        ensures
            final(self).id == old(self).id,
            final(self).peer == old(self).peer,
            final(self).peer_alive == old(self).peer_alive,
            final(self).inbox() == old(self).inbox().push(msg_view(msg)),
    {
        let ghost m = msg;
        self.messages.push(msg);
        proof {
            assert(self.inbox() =~= old(self).inbox().push(msg_view(m)));
        }
    }

    /// Take the oldest message: its payload goes to the front of `buf`
    /// (which must be large enough) and its handles are appended to
    /// `handle_buf`.  With no message waiting, the read should wait while the
    /// other endpoint is open and fails with `RX_ERR_PEER_CLOSED` after.
    pub fn read(&mut self, buf: &mut Vec<u8>, handle_buf: &mut Vec<u32>) -> (r: Result<(usize, usize), Status>)
        ensures
            final(self).id == old(self).id,
            final(self).peer == old(self).peer,
            final(self).peer_alive == old(self).peer_alive,
            old(self).inbox().len() == 0 ==> r == Err::<(usize, usize), Status>(if old(self).peer_alive { RX_ERR_SHOULD_WAIT } else { RX_ERR_PEER_CLOSED })
                && *final(self) == *old(self) && *final(buf) == *old(buf) && *final(handle_buf) == *old(handle_buf),
            old(self).inbox().len() > 0 && old(self).inbox()[0].0.len() > old(buf)@.len() ==> r == Err::<(usize, usize), Status>(RX_ERR_BUFFER_TOO_SMALL)
                && *final(self) == *old(self) && *final(buf) == *old(buf) && *final(handle_buf) == *old(handle_buf),
            old(self).inbox().len() > 0 && old(self).inbox()[0].0.len() <= old(buf)@.len() ==> ({
                let m = old(self).inbox()[0];
                &&& r == Ok::<(usize, usize), Status>((m.0.len() as usize, m.1.len() as usize))
                &&& final(self).inbox() == old(self).inbox().drop_first()
                &&& final(buf)@ == m.0 + old(buf)@.subrange(m.0.len() as int, old(buf)@.len() as int)
                &&& final(handle_buf)@ == old(handle_buf)@ + m.1
            }),
    {
        if self.messages.len() == 0 {
            if self.peer_alive {
                return Err(RX_ERR_SHOULD_WAIT);
            } else {
                return Err(RX_ERR_PEER_CLOSED);
            }
        }
        let dlen = self.messages[0].data.len();
        if dlen > buf.len() {
            return Err(RX_ERR_BUFFER_TOO_SMALL);
        }
        let msg = self.messages.remove(0);
        proof {
            assert(self.inbox() =~= old(self).inbox().drop_first());
            assert(msg_view(msg) == old(self).inbox()[0]);
        }
        let cap = buf.len();
        let mut i: usize = 0;
        while i < dlen
            invariant
                i <= dlen,
                dlen == msg.data@.len(),
                dlen <= cap,
                cap == old(buf)@.len(),
                buf@.len() == cap,
                forall|k: int| 0 <= k < i ==> #[trigger] buf@[k] == msg.data@[k],
                forall|k: int| i <= k < cap ==> #[trigger] buf@[k] == old(buf)@[k],
            decreases dlen - i,
        {
            buf.set(i, msg.data[i]);
            i = i + 1;
        }
        proof {
            assert(buf@ =~= msg.data@ + old(buf)@.subrange(dlen as int, cap as int));
        }
        let hlen = msg.handles.len();
        let mut j: usize = 0;
        while j < hlen
            invariant
                j <= hlen,
                hlen == msg.handles@.len(),
                handle_buf@ == old(handle_buf)@ + msg.handles@.subrange(0, j as int),
            decreases hlen - j,
        {
            handle_buf.push(msg.handles[j]);
            j = j + 1;
            proof {
                assert(handle_buf@ =~= old(handle_buf)@ + msg.handles@.subrange(0, j as int));
            }
        }
        proof {
            assert(msg.handles@.subrange(0, hlen as int) =~= msg.handles@);
        }
        Ok((dlen, hlen))
    }

    /// Mark the other endpoint as closed.
    pub fn peer_closed(&mut self)
        ensures
            final(self).id == old(self).id,
            final(self).peer == old(self).peer,
            !final(self).peer_alive,
            final(self).inbox() == old(self).inbox(),
    {
        self.peer_alive = false;
    }
}

/// Every channel endpoint known to the kernel, by id.
pub struct ChannelRegistry {
    pub table: SlotTable<Channel>,
}

impl ChannelRegistry {
    pub open spec fn wf(&self) -> bool {
        self.table.wf()
    }

    /// Object registered under `id`, as a lookup sees it.
    pub open spec fn find(&self, id: u64) -> Option<Channel> {
        self.table.find(id)
    }

    /// An empty registry of `MAX_CHANNELS` slots.
    pub fn new() -> (r: ChannelRegistry)
        ensures
            r.wf(),
            r.table.slots@.len() == MAX_CHANNELS,
            r.table.count == 0,
            r.table.next_index == 0,
            forall|i: int| 0 <= i < MAX_CHANNELS ==> r.table.slots@[i] is None,
            forall|id: u64| #[trigger] r.table.find(id) is None,
    {
        ChannelRegistry { table: SlotTable::new(MAX_CHANNELS) }
    }

    /// Register `obj` under its id, in the first free slot probing the
    /// whole table from its home slot.
    pub fn insert(&mut self, obj: Channel) -> (r: Result<u64, Status>)
        requires
            old(self).wf(),
        ensures
            final(self).wf(),
            insert_post(old(self).table, final(self).table, obj.id, obj, r),
    {
        let id = obj.id;
        self.table.insert(id, obj)
    }

    /// Object registered under `id`, as a lookup finds it.
    pub fn get(&self, id: u64) -> (r: Option<&Channel>)
        requires
            self.wf(),
        ensures
            r matches Some(v) ==> self.find(id) == Some(*v),
            r is None ==> self.find(id) is None,
    {
        self.table.get(id)
    }

    /// Remove the entry a lookup of `id` finds, handing its object back.
    pub fn remove(&mut self, id: u64) -> (r: Option<Channel>)
        requires
            old(self).wf(),
        ensures
            final(self).wf(),
            remove_post(old(self).table, final(self).table, id, r),
    {
        self.table.remove(id)
    }

    /// Number of objects counted as registered.
    pub fn count(&self) -> (c: usize)
        ensures
            c == self.table.count,
    {
        self.table.count
    }
}

/// The channel endpoints of the kernel and the next id to hand out.
pub struct ChannelSubsystem {
    pub registry: ChannelRegistry,
    pub next_id: ChannelId,
}

impl ChannelSubsystem {
    /// No channels; ids are handed out from 1.
    pub fn new() -> (s: ChannelSubsystem)
        ensures
            s.registry.wf(),
            s.registry.table.count == 0,
            s.next_id == 1,
            forall|id: u64| s.registry.find(id) is None,
            messages_bounded(s.registry),
    {
        ChannelSubsystem { registry: ChannelRegistry::new(), next_id: 1 }
    }

    /// Send a message from endpoint `from` to its peer: it is queued behind
    /// the messages already waiting there, and the result is the payload
    /// size.  A missing endpoint is `RX_ERR_NOT_FOUND`; a closed or missing
    /// peer is `RX_ERR_PEER_CLOSED`.
    pub fn write(&mut self, from: ChannelId, data: Vec<u8>, handles: Vec<u32>) -> (r: Result<usize, Status>)
        requires
            old(self).registry.wf(),
        ensures
            final(self).registry.wf(),
            final(self).next_id == old(self).next_id,
            match old(self).registry.find(from) {
                None => r == Err::<usize, Status>(RX_ERR_NOT_FOUND) && final(self).registry.table == old(self).registry.table,
                Some(a) => if !a.peer_alive || old(self).registry.find(a.peer) is None {
                    r == Err::<usize, Status>(RX_ERR_PEER_CLOSED) && final(self).registry.table == old(self).registry.table
                } else {
                    let b = old(self).registry.find(a.peer)->0;
                    &&& r == Ok::<usize, Status>(data@.len() as usize)
                    &&& updated_such_that(old(self).registry.table, final(self).registry.table, a.peer,
                        |c: Channel| c.id == b.id && c.peer == b.peer && c.peer_alive == b.peer_alive
                            && c.inbox() == b.inbox().push((data@, handles@)))
                },
            },
    {
        let peer = match self.registry.get(from) {
            Some(a) => {
                if !a.peer_alive {
                    return Err(RX_ERR_PEER_CLOSED);
                }
                a.peer
            },
            None => {
                return Err(RX_ERR_NOT_FOUND);
            },
        };
        let len = data.len();
        let ghost dv = data@;
        let ghost hv = handles@;
        match self.registry.table.get_mut(peer) {
            Some(b) => {
                b.deliver(Message { data, handles });
                Ok(len)
            },
            None => Err(RX_ERR_PEER_CLOSED),
        }
    }
}

/// The handle reached through handle value `hv`: the handle must exist,
/// refer to a channel, carry `rights`, and name a registered endpoint.
pub open spec fn channel_for_handle(handles: HandleTable, reg: ChannelRegistry, hv: u32, rights: Rights) -> Result<Handle, Status> {
    match handles.lookup(hv) {
        None => Err(RX_ERR_INVALID_ARGS),
        Some(h) => if h.obj_type != ObjectType::Channel {
            Err(RX_ERR_WRONG_TYPE)
        } else if h.rights & rights != rights {
            Err(RX_ERR_ACCESS_DENIED)
        } else if reg.find(h.id) is None {
            Err(RX_ERR_NOT_FOUND)
        } else {
            Ok(h)
        },
    }
}

/// Resolve a handle value to the handle of the channel endpoint it refers to.
fn lookup_channel_from_handle(handles: &HandleTable, reg: &ChannelRegistry, handle_val: u32, required_rights: Rights) -> (r: Result<Handle, Status>)
    requires
        handles.wf(),
        reg.wf(),
    ensures
        r == channel_for_handle(*handles, *reg, handle_val, required_rights),
{
    let handle = match handles.get(handle_val) {
        Some(h) => h,
        None => {
            return Err(RX_ERR_INVALID_ARGS);
        },
    };
    if handle.obj_type != ObjectType::Channel {
        return Err(RX_ERR_WRONG_TYPE);
    }
    match handle.require(required_rights) {
        Ok(()) => {},
        Err(e) => {
            return Err(e);
        },
    }
    match reg.get(handle.id) {
        Some(_) => Ok(handle),
        None => Err(RX_ERR_NOT_FOUND),
    }
}

/// Whether slot `pos` of `s` holds a fresh endpoint `id` connected to `peer`.
pub open spec fn endpoint_at(s: Seq<Option<(u64, Channel)>>, pos: int, id: ChannelId, peer: ChannelId) -> bool {
    &&& s[pos] is Some
    &&& (s[pos]->0).0 == id
    &&& (s[pos]->0).1.id == id
    &&& (s[pos]->0).1.peer == peer
    &&& (s[pos]->0).1.peer_alive
    &&& (s[pos]->0).1.inbox().len() == 0
}

/// Whether a queued message keeps to the message limits.
pub open spec fn msg_fits(m: (Seq<u8>, Seq<u32>)) -> bool {
    m.0.len() <= MAX_MSG_SIZE && m.1.len() <= MAX_MSG_HANDLES
}

/// Every message of `q` keeps to the message limits.
pub open spec fn inbox_fits(q: Seq<(Seq<u8>, Seq<u32>)>) -> bool {
    forall|j: int| 0 <= j < q.len() ==> msg_fits(#[trigger] q[j])
}

/// Every message queued at any endpoint of `reg` keeps to the message
/// limits.
pub open spec fn messages_bounded(reg: ChannelRegistry) -> bool {
    forall|i: int| 0 <= i < reg.table.slots@.len() && (#[trigger] reg.table.slots@[i]) is Some
        ==> inbox_fits((reg.table.slots@[i]->0).1.inbox())
}

/// Adding a message within the limits to a queue within the limits keeps
/// it within them.
proof fn lemma_inbox_fits_push(q: Seq<(Seq<u8>, Seq<u32>)>, m: (Seq<u8>, Seq<u32>))
    requires
        inbox_fits(q),
        msg_fits(m),
    ensures
        inbox_fits(q.push(m)),
{
    assert forall|j: int| 0 <= j < q.push(m).len() implies msg_fits(#[trigger] q.push(m)[j]) by {
        if j < q.len() {
            assert(q.push(m)[j] == q[j]);
        }
    }
}

/// Taking the first message off a queue within the limits keeps it within
/// them.
proof fn lemma_inbox_fits_drop_first(q: Seq<(Seq<u8>, Seq<u32>)>)
    requires
        inbox_fits(q),
        q.len() > 0,
    ensures
        inbox_fits(q.drop_first()),
{
    assert forall|j: int| 0 <= j < q.drop_first().len() implies msg_fits(#[trigger] q.drop_first()[j]) by {
        assert(q.drop_first()[j] == q[j + 1]);
    }
}

/// Replacing the endpoint in slot `h` by one whose queue keeps to the
/// limits keeps every queue of the registry within them.
proof fn lemma_bounded_after_update(reg: ChannelRegistry, reg2: ChannelRegistry, h: int)
    requires
        messages_bounded(reg),
        0 <= h < reg.table.slots@.len(),
        reg2.table.slots@ == reg.table.slots@.update(h, reg2.table.slots@[h]),
        reg2.table.slots@[h] is Some,
        inbox_fits((reg2.table.slots@[h]->0).1.inbox()),
    ensures
        messages_bounded(reg2),
{
    assert forall|i: int| 0 <= i < reg2.table.slots@.len() && (#[trigger] reg2.table.slots@[i]) is Some
        implies inbox_fits((reg2.table.slots@[i]->0).1.inbox()) by {
        if i != h {
            assert(reg2.table.slots@[i] == reg.table.slots@[i]);
        }
    }
}

/// The result a read packs for `b` bytes and `h` handles is not negative
/// and gives back both counts, the bytes in the low 32 bits and the handles
/// above them, when the counts keep to the message limits (on 64-bit
/// targets, where the packed value fits a machine word).
pub proof fn lemma_read_result_decodes(b: usize, h: usize)
    requires
        b <= MAX_MSG_SIZE,
        h <= MAX_MSG_HANDLES,
        usize::BITS == 64,
    ensures
        read_result(b, h) >= 0,
        (read_result(b, h) as u64) & 0xFFFF_FFFF == b,
        (read_result(b, h) as u64) >> 32 == h,
{
    let b64 = b as u64;
    let h64 = h as u64;
    let v = (h64 << 32u64) | b64;
    assert(v < 0x8000_0000_0000_0000u64 && v & 0xFFFF_FFFF == b64 && v >> 32 == h64) by (bit_vector)
        requires
            b64 <= 65536,
            h64 <= 64,
            v == (h64 << 32u64) | b64,
    ;
    assert(usize::MAX == 0xFFFF_FFFF_FFFF_FFFF);
    assert((v as usize) as int == v as int);
    assert(((v as usize) as isize) as int == v as int);
}

/// Outcome of creating a channel: `r` is the result and a name ending in `_after` is that state after the call.
pub open spec fn channel_create_outcome(
    sub: ChannelSubsystem,
    sub_after: ChannelSubsystem,
    handles: HandleTable,
    handles_after: HandleTable,
    options: u32,
    r: SyscallRet,
) -> bool {
    &&& options != 0 ==> r == -RX_ERR_INVALID_ARGS && sub_after == sub && handles_after == handles
    &&& options == 0 ==> ({
        let id_a = sub.next_id;
        let id_b = id_a.wrapping_add(1);
        let t0 = sub.registry.table;
        let n = t0.slots@.len();
        let t = sub_after.registry.table;
        match insert_pos(t0.slots@, t0.next_index as nat, id_a) {
            None => r == -RX_ERR_NO_RESOURCES && sub_after == sub && handles_after == handles,
            Some(pa) => {
                let n1 = (pa + 1) % (n as int);
                let c1 = t0.count.wrapping_add(1);
                let ra = slot_of(ids_table(t0.slots@).update(pa, Some((id_a, ()))), id_a);
                match insert_pos_in(free_pattern(t0.slots@).update(pa, false), n1 as nat, id_b) {
                    None => {
                        &&& r == -RX_ERR_NO_RESOURCES
                        &&& 0 <= ra < n
                        &&& t.slots@ == t0.slots@.update(pa, t.slots@[pa]).update(ra, None)
                        &&& pa != ra ==> endpoint_at(t.slots@, pa, id_a, id_b)
                        &&& t.next_index == n1
                        &&& t.count == c1.wrapping_sub(1)
                        &&& sub_after.next_id == sub.next_id
                        &&& handles_after == handles
                    },
                    Some(pb) => {
                        let va = #[verifier::truncate] (id_a as u32);
                        let vb = #[verifier::truncate] (id_b as u32);
                        let hda = Handle { obj_type: ObjectType::Channel, id: id_a, rights: RIGHTS_READ | RIGHTS_WRITE };
                        let hdb = Handle { obj_type: ObjectType::Channel, id: id_b, rights: RIGHTS_READ | RIGHTS_WRITE };
                        &&& t.slots@ == t0.slots@.update(pa, t.slots@[pa]).update(pb, t.slots@[pb])
                        &&& endpoint_at(t.slots@, pa, id_a, id_b)
                        &&& endpoint_at(t.slots@, pb, id_b, id_a)
                        &&& t.next_index == (pb + 1) % (n as int)
                        &&& t.count == c1.wrapping_add(1)
                        &&& sub_after.next_id == id_a.wrapping_add(2)
                        &&& r == (((vb as u64) << 32u64 | va as u64) as usize) as isize
                        &&& forall|v: u32| #[trigger] handles_after.lookup(v) == pair_lookup(handles, va, hda, vb, hdb, v)
                    },
                }
            },
        }
    })
}

/// Create a channel (options must be 0) and a handle with the read and
/// write rights to each endpoint, whose values are the endpoints' ids; the
/// result packs the second handle above the first.  When the second endpoint
/// finds no slot, the first endpoint is removed again and the insertion
/// failure is returned.
pub fn sys_channel_create_impl(sub: &mut ChannelSubsystem, handles: &mut HandleTable, options: u32) -> (r: SyscallRet)
    requires
        old(sub).registry.wf(),
        old(handles).wf(),
    ensures
        messages_bounded(old(sub).registry) ==> messages_bounded(final(sub).registry),
        final(sub).registry.wf(),
        final(handles).wf(),
        channel_create_outcome(*old(sub), *final(sub), *old(handles), *final(handles), options, r),
{
    if options != 0 {
        return err_to_ret(RX_ERR_INVALID_ARGS);
    }
    let first = sub.next_id;
    let (channel_a, channel_b) = match Channel::create(first) {
        Ok(channels) => channels,
        Err(err) => {
            return err_to_ret(err);
        },
    };
    let ghost t0 = sub.registry.table;
    let id_a = match sub.registry.insert(channel_a) {
        Ok(id) => id,
        Err(err) => {
            return err_to_ret(err);
        },
    };
    let ghost mid = sub.registry.table;
    proof {
        let pa = insert_pos(t0.slots@, t0.next_index as nat, first)->0;
        lemma_insert_pos_free(t0.slots@, t0.next_index as nat, first);
        lemma_insert_pos_in(mid.slots@, mid.next_index as nat, first.wrapping_add(1));
        assert(free_pattern(mid.slots@) =~= free_pattern(t0.slots@).update(pa, false));
    }
    let id_b = match sub.registry.insert(channel_b) {
        Ok(id) => id,
        Err(err) => {
            proof {
                let pa = insert_pos(t0.slots@, t0.next_index as nat, first)->0;
                assert(ids_table(mid.slots@) =~= ids_table(t0.slots@).update(pa, Some((id_a, ()))));
                lemma_slot_of_ids(mid.slots@, id_a);
                lemma_slot_of(mid.slots@, id_a);
                assert(crate::registry::holds(mid.slots@, pa, id_a));
            }
            let _ = sub.registry.remove(id_a);
            proof {
                let pa = insert_pos(t0.slots@, t0.next_index as nat, first)->0;
                let ra = slot_of(mid.slots@, id_a);
                let t = sub.registry.table;
                assert(t.slots@ =~= t0.slots@.update(pa, t.slots@[pa]).update(ra, None));
            }
            return err_to_ret(err);
        },
    };
    proof {
        lemma_insert_pos_free(mid.slots@, mid.next_index as nat, id_b);
        let pa = insert_pos(t0.slots@, t0.next_index as nat, first)->0;
        let pb = insert_pos(mid.slots@, mid.next_index as nat, id_b)->0;
        let t = sub.registry.table;
        assert(t.slots@ =~= t0.slots@.update(pa, t.slots@[pa]).update(pb, t.slots@[pb]));
    }
    sub.next_id = sub.next_id.wrapping_add(2);
    let handle_value_a = #[verifier::truncate] (id_a as u32);
    let handle_value_b = #[verifier::truncate] (id_b as u32);
    proof {
        assert(handle_value_a != handle_value_b) by (bit_vector)
            requires
                handle_value_a == #[verifier::truncate] (id_a as u32),
                handle_value_b == #[verifier::truncate] ((id_a.wrapping_add(1)) as u32),
                id_b == id_a.wrapping_add(1);
    }
    let ghost h0 = *handles;
    let ha = Handle::new(ObjectType::Channel, id_a, RIGHTS_READ | RIGHTS_WRITE);
    let hb = Handle::new(ObjectType::Channel, id_b, RIGHTS_READ | RIGHTS_WRITE);
    let _ = handles.install(handle_value_a, ha);
    let ghost h1 = *handles;
    let _ = handles.install(handle_value_b, hb);
    proof {
        assert forall|v: u32| #[trigger] handles.lookup(v) == pair_lookup(h0, handle_value_a, ha, handle_value_b, hb, v) by {
            if v != handle_value_b {
                assert(handles.lookup(v) == h1.lookup(v));
            }
            if v != handle_value_a {
                assert(h1.lookup(v) == h0.lookup(v));
            }
        }
    }
    let packed = (handle_value_b as u64) << 32u64 | (handle_value_a as u64);
    ok_to_ret(#[verifier::truncate] (packed as usize))
}

/// The value a channel creation packs for handle values `va` and `vb`
/// gives back `va` in its low 32 bits and `vb` above them (on 64-bit
/// targets), and is not negative when `vb` is below `0x8000_0000`.
pub proof fn lemma_create_result_decodes(va: u32, vb: u32)
    requires
        usize::BITS == 64,
    ensures
        ((((vb as u64) << 32u64 | va as u64) as usize) as isize as u64) & 0xFFFF_FFFF == va,
        ((((vb as u64) << 32u64 | va as u64) as usize) as isize as u64) >> 32 == vb,
        vb < 0x8000_0000 ==> (((vb as u64) << 32u64 | va as u64) as usize) as isize >= 0,
{
    let a64 = va as u64;
    let b64 = vb as u64;
    let v = (b64 << 32u64) | a64;
    assert(v & 0xFFFF_FFFF == a64 && v >> 32 == b64 && (b64 < 0x8000_0000 ==> v < 0x8000_0000_0000_0000u64)) by (bit_vector)
        requires
            a64 <= 0xFFFF_FFFF,
            b64 <= 0xFFFF_FFFF,
            v == (b64 << 32u64) | a64,
    ;
    assert(usize::MAX == 0xFFFF_FFFF_FFFF_FFFF);
    assert((v as usize) as int == v as int);
    let w = (v as usize) as isize;
    assert((w as u64) == v) by (bit_vector)
        requires
            usize::BITS == 64,
            w == (v as usize) as isize,
    ;
}

/// Law: with options 0, two free slots in the registry, and the next two
/// ids not yet registered, creating a channel succeeds: a lookup of each
/// new id finds an open endpoint with an empty queue whose peer is the
/// other, the registry counts two more endpoints, both handles are
/// installed where their values were free, and the result packs the two
/// distinct handle values.
pub proof fn lemma_create_succeeds(
    sub: ChannelSubsystem,
    sub_after: ChannelSubsystem,
    handles: HandleTable,
    handles_after: HandleTable,
    r: SyscallRet,
    f1: int,
    f2: int,
)
    requires
        sub.registry.wf(),
        channel_create_outcome(sub, sub_after, handles, handles_after, 0, r),
        0 <= f1 < f2 < sub.registry.table.slots@.len(),
        sub.registry.table.slots@[f1] is None,
        sub.registry.table.slots@[f2] is None,
        sub.registry.find(sub.next_id) is None,
        sub.registry.find(sub.next_id.wrapping_add(1)) is None,
    ensures
        ({
            let id_a = sub.next_id;
            let id_b = id_a.wrapping_add(1);
            let va = #[verifier::truncate] (id_a as u32);
            let vb = #[verifier::truncate] (id_b as u32);
            &&& sub_after.registry.find(id_a) matches Some(a) && a.id == id_a && a.peer == id_b && a.peer_alive && a.inbox().len() == 0
            &&& sub_after.registry.find(id_b) matches Some(b) && b.id == id_b && b.peer == id_a && b.peer_alive && b.inbox().len() == 0
            &&& sub_after.registry.table.count == sub.registry.table.count.wrapping_add(2)
            &&& sub_after.next_id == id_a.wrapping_add(2)
            &&& va != vb
            &&& r == (((vb as u64) << 32u64 | va as u64) as usize) as isize
            &&& handles.lookup(va) is None ==> handles_after.lookup(va) == Some(Handle { obj_type: ObjectType::Channel, id: id_a, rights: RIGHTS_READ | RIGHTS_WRITE })
            &&& handles.lookup(vb) is None ==> handles_after.lookup(vb) == Some(Handle { obj_type: ObjectType::Channel, id: id_b, rights: RIGHTS_READ | RIGHTS_WRITE })
        }),
{
    let id_a = sub.next_id;
    let id_b = id_a.wrapping_add(1);
    let t0 = sub.registry.table;
    let t = sub_after.registry.table;
    let n = t0.slots@.len();
    lemma_insert_pos_some(t0.slots@, t0.next_index as nat, id_a, f1);
    let pa = insert_pos(t0.slots@, t0.next_index as nat, id_a)->0;
    lemma_insert_pos_free(t0.slots@, t0.next_index as nat, id_a);
    let n1 = (pa + 1) % (n as int);
    let s1 = ids_table(t0.slots@).update(pa, Some((id_a, ())));
    assert(free_pattern(s1) =~= free_pattern(t0.slots@).update(pa, false));
    lemma_insert_pos_in(s1, n1 as nat, id_b);
    let f = if f1 == pa { f2 } else { f1 };
    assert(s1[f] is None);
    lemma_insert_pos_some(s1, n1 as nat, id_b, f);
    lemma_insert_pos_free(s1, n1 as nat, id_b);
    let pb = insert_pos(s1, n1 as nat, id_b)->0;
    assert(pb != pa);
    assert(id_b != id_a) by (bit_vector)
        requires
            id_b == id_a.wrapping_add(1);
    lemma_slot_of(t0.slots@, id_a);
    lemma_slot_of(t0.slots@, id_b);
    assert forall|k: int| 0 <= k < n && k != pa implies !#[trigger] holds(t.slots@, k, id_a) by {
        if k != pb {
            assert(t.slots@[k] == t0.slots@[k]);
            assert(!holds(t0.slots@, k, id_a));
        }
    }
    lemma_slot_of_only(t.slots@, pa, id_a);
    assert forall|k: int| 0 <= k < n && k != pb implies !#[trigger] holds(t.slots@, k, id_b) by {
        if k != pa {
            assert(t.slots@[k] == t0.slots@[k]);
            assert(!holds(t0.slots@, k, id_b));
        }
    }
    lemma_slot_of_only(t.slots@, pb, id_b);
    let va = #[verifier::truncate] (id_a as u32);
    let vb = #[verifier::truncate] (id_b as u32);
    assert(va != vb) by (bit_vector)
        requires
            va == #[verifier::truncate] (id_a as u32),
            vb == #[verifier::truncate] (id_b as u32),
            id_b == id_a.wrapping_add(1);
}

/// The `count` handle values stored as 4-byte little-endian words at
/// `addr`.
pub open spec fn handle_values(mem: UserMemory, addr: usize, count: usize) -> Seq<u32> {
    Seq::new(count as nat, |i: int| le_field(mem.bytes_at(addr, (4 * count) as usize), 4 * i, 4) as u32)
}

/// Whether the handles named by `vals` may be sent: each must be in the
/// table (else `RX_ERR_BAD_HANDLE`) and carry the transfer right (else
/// `RX_ERR_ACCESS_DENIED`).
pub open spec fn transfer_check(handles: HandleTable, vals: Seq<u32>) -> Result<(), Status> {
    if exists|i: int| 0 <= i < vals.len() && (#[trigger] handles.lookup(vals[i])) is None {
        Err(RX_ERR_BAD_HANDLE)
    } else if exists|i: int| 0 <= i < vals.len() && (#[trigger] handles.lookup(vals[i]))->0.rights & RIGHTS_TRANSFER != RIGHTS_TRANSFER {
        Err(RX_ERR_ACCESS_DENIED)
    } else {
        Ok(())
    }
}

/// Outcome of writing a message to a channel: `r` is the result and a name
/// ending in `_after` is that state after the call.
pub open spec fn channel_write_outcome(
    sub: ChannelSubsystem,
    sub_after: ChannelSubsystem,
    handles: HandleTable,
    handles_after: HandleTable,
    mem: UserMemory,
    handle_val: u32,
    options: u32,
    user_data: usize,
    data_size: usize,
    user_handles: usize,
    handle_count: usize,
    r: SyscallRet,
) -> bool {
    &&& sub_after.next_id == sub.next_id
    &&& ({
        let unchanged = sub_after.registry.table == sub.registry.table && handles_after == handles;
        if options != 0 || data_size > MAX_MSG_SIZE || handle_count > MAX_MSG_HANDLES {
            r == -RX_ERR_INVALID_ARGS && unchanged
        } else {
            match channel_for_handle(handles, sub.registry, handle_val, RIGHTS_WRITE) {
                Err(e) => r == -e && unchanged,
                Ok(h) => if !mem.range_ok(user_data, data_size)
                    || (handle_count > 0 && !mem.range_ok(user_handles, (4 * handle_count) as usize)) {
                    r == -RX_ERR_INVALID_ARGS && unchanged
                } else {
                    let data = if data_size == 0 { Seq::<u8>::empty() } else { mem.bytes_at(user_data, data_size) };
                    let vals = handle_values(mem, user_handles, handle_count);
                    let a = sub.registry.find(h.id)->0;
                    match transfer_check(handles, vals) {
                        Err(e) => r == -e && unchanged,
                        Ok(()) => if !a.peer_alive || sub.registry.find(a.peer) is None {
                            r == -RX_ERR_PEER_CLOSED && unchanged
                        } else {
                            let b = sub.registry.find(a.peer)->0;
                            &&& r == data_size
                            &&& updated_such_that(sub.registry.table, sub_after.registry.table, a.peer,
                                |c: Channel| c.id == b.id && c.peer == b.peer && c.peer_alive == b.peer_alive
                                    && c.inbox() == b.inbox().push((data, vals)))
                            &&& handles_after.wf()
                            &&& forall|v: u32| #[trigger] handles_after.lookup(v)
                                == if vals.contains(v) { None } else { handles.lookup(v) }
                        },
                    }
                },
            }
        }
    })
}

/// Send `data_size` bytes from user memory at `user_data`, and the
/// `handle_count` handles whose values are stored as 4-byte words at
/// `user_handles`, through the channel endpoint behind `handle_val` (which
/// needs the write right) to its peer.  Options must be 0, the payload at
/// most `MAX_MSG_SIZE` bytes and the handle count at most
/// `MAX_MSG_HANDLES`; every handle sent must exist and carry the transfer
/// right, and on success leaves the caller's table and travels in the
/// message.
#[verifier::loop_isolation(false)]
pub fn sys_channel_write_impl(
    sub: &mut ChannelSubsystem,
    handles: &mut HandleTable,
    mem: &UserMemory,
    handle_val: u32,
    options: u32,
    user_data: usize,
    data_size: usize,
    user_handles: usize,
    handle_count: usize,
) -> (r: SyscallRet)
    requires
        old(sub).registry.wf(),
        old(handles).wf(),
    ensures
        messages_bounded(old(sub).registry) ==> messages_bounded(final(sub).registry),
        final(sub).registry.wf(),
        final(handles).wf(),
        channel_write_outcome(*old(sub), *final(sub), *old(handles), *final(handles), *mem, handle_val, options,
            user_data, data_size, user_handles, handle_count, r),
{
    if options != 0 {
        return err_to_ret(RX_ERR_INVALID_ARGS);
    }
    if data_size > MAX_MSG_SIZE {
        return err_to_ret(RX_ERR_INVALID_ARGS);
    }
    if handle_count > MAX_MSG_HANDLES {
        return err_to_ret(RX_ERR_INVALID_ARGS);
    }
    let handle = match lookup_channel_from_handle(handles, &sub.registry, handle_val, RIGHTS_WRITE) {
        Ok(h) => h,
        Err(err) => {
            return err_to_ret(err);
        },
    };
    let data = match mem.copy_from_user(user_data, data_size) {
        Ok(d) => d,
        Err(err) => {
            return err_to_ret(err);
        },
    };
    let ghost vals = handle_values(*mem, user_handles, handle_count);
    let mut msg_handles: Vec<u32> = Vec::new();
    if handle_count > 0 {
        let raw = match mem.copy_from_user(user_handles, 4 * handle_count) {
            Ok(b) => b,
            Err(err) => {
                return err_to_ret(err);
            },
        };
        let mut i: usize = 0;
        while i < handle_count
            invariant
                i <= handle_count,
                handle_count <= MAX_MSG_HANDLES,
                raw@ == mem.bytes_at(user_handles, (4 * handle_count) as usize),
                raw@.len() == 4 * handle_count,
                vals == handle_values(*mem, user_handles, handle_count),
                msg_handles@ == vals.subrange(0, i as int),
            decreases handle_count - i,
        {
            let v = field_at(&raw, 4 * i, 4) as u32;
            msg_handles.push(v);
            i = i + 1;
            proof {
                assert(msg_handles@ =~= vals.subrange(0, i as int));
            }
        }
    }
    proof {
        assert(msg_handles@ =~= vals);
    }
    let mut i: usize = 0;
    while i < msg_handles.len()
        invariant
            i <= msg_handles@.len(),
            msg_handles@ == vals,
            *handles == *old(handles),
            handles.wf(),
            forall|k: int| 0 <= k < i ==> (#[trigger] handles.lookup(vals[k])) is Some,
        decreases msg_handles@.len() - i,
    {
        if handles.get(msg_handles[i]).is_none() {
            return err_to_ret(RX_ERR_BAD_HANDLE);
        }
        i = i + 1;
    }
    let mut i: usize = 0;
    while i < msg_handles.len()
        invariant
            i <= msg_handles@.len(),
            msg_handles@ == vals,
            *handles == *old(handles),
            handles.wf(),
            forall|k: int| 0 <= k < vals.len() ==> (#[trigger] handles.lookup(vals[k])) is Some,
            forall|k: int| 0 <= k < i ==> (#[trigger] handles.lookup(vals[k]))->0.rights & RIGHTS_TRANSFER == RIGHTS_TRANSFER,
        decreases msg_handles@.len() - i,
    {
        match handles.get(msg_handles[i]) {
            Some(h) => {
                if h.rights & RIGHTS_TRANSFER != RIGHTS_TRANSFER {
                    return err_to_ret(RX_ERR_ACCESS_DENIED);
                }
            },
            None => {
                return err_to_ret(RX_ERR_BAD_HANDLE);
            },
        }
        i = i + 1;
    }
    let peer_ok = match sub.registry.get(handle.id) {
        Some(a) => a.peer_alive && sub.registry.get(a.peer).is_some(),
        None => false,
    };
    if !peer_ok {
        return err_to_ret(RX_ERR_PEER_CLOSED);
    }
    let mut i: usize = 0;
    while i < msg_handles.len()
        invariant
            i <= msg_handles@.len(),
            msg_handles@ == vals,
            handles.wf(),
            forall|v: u32| #[trigger] handles.lookup(v)
                == if vals.subrange(0, i as int).contains(v) { None } else { old(handles).lookup(v) },
        decreases msg_handles@.len() - i,
    {
        let _ = handles.remove(msg_handles[i]);
        proof {
            assert forall|v: u32| #[trigger] handles.lookup(v)
                == if vals.subrange(0, i + 1).contains(v) { None } else { old(handles).lookup(v) } by {
                if vals.subrange(0, i as int).contains(v) {
                    let k = choose|k: int| 0 <= k < i && vals.subrange(0, i as int)[k] == v;
                    assert(vals.subrange(0, i + 1)[k] == v);
                }
                if v == vals[i as int] {
                    assert(vals.subrange(0, i + 1)[i as int] == v);
                } else if vals.subrange(0, i + 1).contains(v) {
                    let n1: int = i + 1;
                    let k = choose|k: int| 0 <= k < n1 && vals.subrange(0, n1)[k] == v;
                    assert(vals.subrange(0, i as int)[k] == v);
                }
            }
        }
        i = i + 1;
    }
    proof {
        assert(vals.subrange(0, vals.len() as int) =~= vals);
    }
    let ghost pre = sub.registry;
    let ghost sent = (data@, msg_handles@);
    let res = sub.write(handle.id, data, msg_handles);
    proof {
        if messages_bounded(pre) && res is Ok {
            let a = pre.find(handle.id)->0;
            let h = slot_of(pre.table.slots@, a.peer);
            lemma_slot_of(pre.table.slots@, a.peer);
            let b = pre.find(a.peer)->0;
            assert(pre.table.slots@[h] is Some);
            lemma_inbox_fits_push(b.inbox(), sent);
            lemma_bounded_after_update(pre, sub.registry, h);
        }
    }
    match res {
        Ok(bytes_written) => ok_to_ret(bytes_written),
        Err(err) => err_to_ret(err),
    }
}

/// The value a successful channel read returns: the number of handles
/// received above the number of bytes received.
pub open spec fn read_result(bytes: usize, handles: usize) -> isize {
    ((((handles as u64) << 32u64) | (bytes as u64)) as usize) as isize
}

/// Outcome of reading a message from a channel: `r` is the result and a name ending in `_after` is that state after the call.
pub open spec fn channel_read_outcome(
    sub: ChannelSubsystem,
    sub_after: ChannelSubsystem,
    handles: HandleTable,
    mem: UserMemory,
    mem_after: UserMemory,
    handle_val: u32,
    options: u32,
    user_data: usize,
    data_capacity: usize,
    user_handles: usize,
    handles_capacity: usize,
    r: SyscallRet,
) -> bool {
    &&& sub_after.next_id == sub.next_id
    &&& mem_after.base == mem.base
    &&& ({
        let unchanged = sub_after.registry.table == sub.registry.table && mem_after == mem;
        if options & !CHANNEL_READ_MAY_DISCARD != 0 {
            r == -RX_ERR_INVALID_ARGS && unchanged
        } else {
            match channel_for_handle(handles, sub.registry, handle_val, RIGHTS_READ) {
                Err(e) => r == -e && unchanged,
                Ok(h) => {
                    let c = sub.registry.find(h.id)->0;
                    if c.inbox().len() == 0 {
                        r == -(if c.peer_alive { RX_ERR_SHOULD_WAIT } else { RX_ERR_PEER_CLOSED }) && unchanged
                    } else if c.inbox()[0].0.len() > data_capacity {
                        r == -RX_ERR_BUFFER_TOO_SMALL && unchanged
                    } else {
                        let m = c.inbox()[0];
                        &&& updated_such_that(sub.registry.table, sub_after.registry.table, h.id,
                            |c2: Channel| c2.id == c.id && c2.peer == c.peer && c2.peer_alive == c.peer_alive
                                && c2.inbox() == c.inbox().drop_first())
                        &&& if !mem.range_ok(user_data, m.0.len() as usize) {
                            r == -RX_ERR_INVALID_ARGS && mem_after == mem
                        } else {
                            r == read_result(m.0.len() as usize, m.1.len() as usize) && mem_after.bytes@ == mem.written(user_data, m.0)
                        }
                    }
                },
            }
        }
    })
}

/// A read that takes a message off a queue, in a registry whose queues
/// keep to the message limits, returns a non-negative value that gives back
/// the message's byte count in its low 32 bits and its handle count above
/// them (on 64-bit targets).
pub proof fn lemma_read_reports_counts(
    sub: ChannelSubsystem,
    sub_after: ChannelSubsystem,
    handles: HandleTable,
    mem: UserMemory,
    mem_after: UserMemory,
    handle_val: u32,
    options: u32,
    user_data: usize,
    data_capacity: usize,
    user_handles: usize,
    handles_capacity: usize,
    r: SyscallRet,
)
    requires
        sub.registry.wf(),
        messages_bounded(sub.registry),
        usize::BITS == 64,
        channel_read_outcome(sub, sub_after, handles, mem, mem_after, handle_val, options, user_data,
            data_capacity, user_handles, handles_capacity, r),
        options & !CHANNEL_READ_MAY_DISCARD == 0,
        channel_for_handle(handles, sub.registry, handle_val, RIGHTS_READ) is Ok,
        ({
            let c = sub.registry.find(channel_for_handle(handles, sub.registry, handle_val, RIGHTS_READ)->Ok_0.id)->0;
            &&& c.inbox().len() > 0
            &&& c.inbox()[0].0.len() <= data_capacity
            &&& mem.range_ok(user_data, c.inbox()[0].0.len() as usize)
        }),
    ensures
        ({
            let m = sub.registry.find(channel_for_handle(handles, sub.registry, handle_val, RIGHTS_READ)->Ok_0.id)->0.inbox()[0];
            &&& r >= 0
            &&& (r as u64) & 0xFFFF_FFFF == m.0.len()
            &&& (r as u64) >> 32 == m.1.len()
        }),
{
    let id = channel_for_handle(handles, sub.registry, handle_val, RIGHTS_READ)->Ok_0.id;
    let c = sub.registry.find(id)->0;
    let p = slot_of(sub.registry.table.slots@, id);
    lemma_slot_of(sub.registry.table.slots@, id);
    assert(sub.registry.table.slots@[p] is Some);
    assert(inbox_fits(c.inbox()));
    assert(msg_fits(c.inbox()[0]));
    lemma_read_result_decodes(c.inbox()[0].0.len() as usize, c.inbox()[0].1.len() as usize);
}

/// Receive the oldest message waiting at the channel endpoint behind
/// `handle_val` (which needs the read right): its payload, which must fit in
/// `data_capacity` bytes, is copied to user memory at `user_data`.  Options
/// other than may-discard are refused.  The message is consumed even when
/// the copy to user memory fails.
pub fn sys_channel_read_impl(
    sub: &mut ChannelSubsystem,
    handles: &HandleTable,
    mem: &mut UserMemory,
    handle_val: u32,
    options: u32,
    user_data: usize,
    data_capacity: usize,
    user_handles: usize,
    handles_capacity: usize,
) -> (r: SyscallRet)
    requires
        old(sub).registry.wf(),
        handles.wf(),
    ensures
        messages_bounded(old(sub).registry) ==> messages_bounded(final(sub).registry),
        final(sub).registry.wf(),
        channel_read_outcome(*old(sub), *final(sub), *handles, *old(mem), *final(mem), handle_val,
            options, user_data, data_capacity, user_handles, handles_capacity, r),
{
    if options & !CHANNEL_READ_MAY_DISCARD != 0 {
        return err_to_ret(RX_ERR_INVALID_ARGS);
    }
    let handle = match lookup_channel_from_handle(handles, &sub.registry, handle_val, RIGHTS_READ) {
        Ok(h) => h,
        Err(err) => {
            return err_to_ret(err);
        },
    };
    match sub.registry.get(handle.id) {
        Some(channel) => {
            if channel.messages.len() == 0 {
                if channel.peer_alive {
                    return err_to_ret(RX_ERR_SHOULD_WAIT);
                } else {
                    return err_to_ret(RX_ERR_PEER_CLOSED);
                }
            }
            if channel.messages[0].data.len() > data_capacity {
                return err_to_ret(RX_ERR_BUFFER_TOO_SMALL);
            }
        },
        None => {
            return err_to_ret(RX_ERR_NOT_FOUND);
        },
    }
    let mut data_buf = zeroed(data_capacity);
    let mut handle_buf: Vec<u32> = Vec::new();
    let (bytes_read, handles_received) = match sub.registry.table.get_mut(handle.id) {
        Some(channel) => {
            match channel.read(&mut data_buf, &mut handle_buf) {
                Ok(res) => res,
                Err(err) => {
                    return err_to_ret(err);
                },
            }
        },
        None => {
            return err_to_ret(RX_ERR_NOT_FOUND);
        },
    };
    proof {
        let m = old(sub).registry.find(handle.id)->0.inbox()[0];
        assert(data_buf@.subrange(0, bytes_read as int) =~= m.0);
        if messages_bounded(old(sub).registry) {
            let h = slot_of(old(sub).registry.table.slots@, handle.id);
            lemma_slot_of(old(sub).registry.table.slots@, handle.id);
            assert(old(sub).registry.table.slots@[h] is Some);
            lemma_inbox_fits_drop_first(old(sub).registry.find(handle.id)->0.inbox());
            lemma_bounded_after_update(old(sub).registry, sub.registry, h);
        }
    }
    data_buf.truncate(bytes_read);
    if bytes_read > 0 {
        match mem.copy_to_user(user_data, data_buf.as_slice()) {
            Ok(()) => {},
            Err(err) => {
                return err_to_ret(err);
            },
        }
    }
    let packed = ((handles_received as u64) << 32u64) | (bytes_read as u64);
    ok_to_ret(#[verifier::truncate] (packed as usize))
}

/// A kernel buffer of `len` zero bytes.
fn zeroed(len: usize) -> (v: Vec<u8>)
    ensures
        v@.len() == len,
        forall|i: int| 0 <= i < len ==> v@[i] == 0,
{
    let mut v: Vec<u8> = Vec::new();
    let mut i: usize = 0;
    while i < len
        invariant
            i <= len,
            v@.len() == i,
            forall|k: int| 0 <= k < i ==> v@[k] == 0,
        decreases len - i,
    {
        v.push(0);
        i = i + 1;
    }
    v
}

/// Channel subsystem statistics.
#[derive(Clone, Copy, Debug)]
pub struct ChannelStats {
    pub total_channels: usize,
    pub total_messages: u64,
    pub total_bytes: u64,
}

/// Current channel statistics: how many endpoints are registered (message
/// traffic is not tracked).
pub fn get_stats(sub: &ChannelSubsystem) -> (st: ChannelStats)
    ensures
        st.total_channels == sub.registry.table.count,
        st.total_messages == 0,
        st.total_bytes == 0,
{
    ChannelStats { total_channels: sub.registry.count(), total_messages: 0, total_bytes: 0 }
}

/// Initialize the channel syscall subsystem (nothing to set up).
pub fn init() {
}

/// Messages are read in the order they were delivered: a message
/// delivered to an empty inbox is the next one read, and reading leaves
/// it last; delivered behind others, it leaves the oldest to be read
/// first.
pub proof fn lemma_inbox_order(q: Seq<(Seq<u8>, Seq<u32>)>, m: (Seq<u8>, Seq<u32>))
    ensures
        q.len() == 0 ==> q.push(m)[0] == m && q.push(m).drop_first().len() == 0,
        q.len() > 0 ==> q.push(m)[0] == q[0] && q.push(m).drop_first() == q.drop_first().push(m),
{
    if q.len() > 0 {
        assert(q.push(m).drop_first() =~= q.drop_first().push(m));
    }
}

} // verus!

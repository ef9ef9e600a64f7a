//! Ports: queues of fixed-size packets, and the syscalls that create them,
//! queue packets, wait for them and cancel them.  A port is named by its id
//! directly; the value user space passes as a handle is that id.
use vstd::prelude::*;
use crate::status::{Status, RX_ERR_BAD_HANDLE, RX_ERR_INVALID_ARGS, RX_ERR_NO_RESOURCES, RX_ERR_NOT_FOUND, RX_ERR_TIMED_OUT};
use crate::registry::{HomeTable, home_slot, home_updated_such_that};
use crate::usercopy::{UserMemory, le_value, decode_le};
use crate::{SyscallRet, err_to_ret, ok_to_ret};
use std::collections::VecDeque;

pub mod port_options;

verus! {

/// Capacity of the port registry.
pub const MAX_PORTS: usize = 16384;

/// Size of a packet in memory: the key (8 bytes), the type (1 byte, then 3
/// bytes of padding), the status (4 bytes) and a 32-byte payload.
pub const PORT_PACKET_SIZE: usize = 48;

/// Kind of a port packet.
#[derive(Clone, Copy, Debug, PartialEq, Eq, Structural)]
pub enum PacketType {
    User,
    Signal,
    Exception,
    GuestBell,
    GuestVcpu,
    EventSingle,
    EventPair,
}

impl PacketType {
    /// The type's value in a packet.
    pub fn into_raw(self) -> (v: u8)
        ensures
            v == match self {
                PacketType::User => 0u8,
                PacketType::Signal => 1u8,
                PacketType::Exception => 2u8,
                PacketType::GuestBell => 3u8,
                PacketType::GuestVcpu => 4u8,
                PacketType::EventSingle => 5u8,
                PacketType::EventPair => 6u8,
            },
    {
        match self {
            PacketType::User => 0,
            PacketType::Signal => 1,
            PacketType::Exception => 2,
            PacketType::GuestBell => 3,
            PacketType::GuestVcpu => 4,
            PacketType::EventSingle => 5,
            PacketType::EventPair => 6,
        }
    }
}

/// Payload of a user packet.
#[derive(Clone, Copy, Debug, PartialEq, Eq, Structural)]
pub struct UserData {
    pub u64: u64,
    pub u64_2: u64,
    pub u64_3: u64,
    pub u64_4: u64,
}

/// Payload of a signal packet.
#[derive(Clone, Copy, Debug, PartialEq, Eq, Structural)]
pub struct SignalData {
    pub count: u64,
    pub reserved: u64,
    pub signals: u64,
    pub timestamp: u64,
}

/// Payload of an exception packet.
#[derive(Clone, Copy, Debug, PartialEq, Eq, Structural)]
pub struct ExceptionData {
    pub pid: u64,
    pub tid: u64,
    pub reserved: u64,
    pub timestamp: u64,
}

/// A port packet: a key identifying its source, its type, a status and a
/// 32-byte payload (read as user, signal or exception data by type).
#[derive(Clone, Copy, Debug)]
pub struct PortPacket {
    pub key: u64,
    pub packet_type: PacketType,
    pub status: i32,
    pub payload: [u8; 32],
}

/// The key of a packet held as its bytes: the first 8 bytes, little-endian.
pub open spec fn packet_key(p: Seq<u8>) -> u64 {
    le_value(p, 8)
}

/// Whether a packet is kept by a cancellation of `key`.
pub open spec fn keeps(key: u64) -> spec_fn(Seq<u8>) -> bool {
    |p: Seq<u8>| packet_key(p) != key
}

/// A port: the packets queued on it as bytes, oldest first, and how many
/// threads wait on it.
pub struct PortEntry {
    pub id: u64,
    pub packets: VecDeque<Vec<u8>>,
    pub waiters: usize,
}

impl PortEntry {
    /// The queued packets, oldest first.
    pub open spec fn queue(&self) -> Seq<Seq<u8>> {
        self.packets@.map_values(|p: Vec<u8>| p@)
    }

    /// Every queued packet is a whole packet.
    pub open spec fn wf(&self) -> bool {
        forall|i: int| 0 <= i < self.packets@.len() ==> (#[trigger] self.packets@[i])@.len() == PORT_PACKET_SIZE
    }

    /// An empty port with no waiter.
    pub fn new(id: u64) -> (p: PortEntry)
        ensures
            p.wf(),
            p.id == id,
            p.queue().len() == 0,
            p.waiters == 0,
    {
        let p = PortEntry { id, packets: VecDeque::new(), waiters: 0 };
        proof {
            assert(p.queue() =~= Seq::empty());
        }
        p
    }

    /// Queue a whole packet behind the others.
    pub fn push(&mut self, packet: Vec<u8>)
        requires
            old(self).wf(),
            packet@.len() == PORT_PACKET_SIZE,
        ensures
            final(self).wf(),
            final(self).id == old(self).id,
            final(self).waiters == old(self).waiters,
            final(self).queue() == old(self).queue().push(packet@),
    {
        let ghost pv = packet@;
        self.packets.push_back(packet);
        proof {
            assert(self.queue() =~= old(self).queue().push(pv));
        }
    }

    /// Take the oldest packet, if any.
    pub fn pop(&mut self) -> (r: Option<Vec<u8>>)
        requires
            old(self).wf(),
        ensures
            final(self).wf(),
            final(self).id == old(self).id,
            final(self).waiters == old(self).waiters,
            old(self).queue().len() == 0 ==> r is None && final(self).queue() == old(self).queue(),
            old(self).queue().len() > 0 ==> (r matches Some(p) && p@ == old(self).queue()[0])
                && final(self).queue() == old(self).queue().drop_first(),
    {
        let p = match self.packets.pop_front() {
            Some(p) => p,
            None => {
                return None;
            },
        };
        proof {
            assert(self.queue() =~= old(self).queue().drop_first());
            assert forall|i: int| 0 <= i < self.packets@.len() implies (#[trigger] self.packets@[i])@.len() == PORT_PACKET_SIZE by {
                assert(self.packets@[i] == old(self).packets@[i + 1]);
            }
        }
        Some(p)
    }

    /// Drop every queued packet with key `key`, keeping the others in order,
    /// and return how many were dropped.
    pub fn cancel(&mut self, key: u64) -> (removed: usize)
        requires
            old(self).wf(),
        ensures
            final(self).wf(),
            final(self).id == old(self).id,
            final(self).waiters == old(self).waiters,
            final(self).queue() == old(self).queue().filter(keeps(key)),
            removed == old(self).queue().len() - final(self).queue().len(),
    {
        let n = self.packets.len();
        let mut kept: VecDeque<Vec<u8>> = VecDeque::new();
        let mut i: usize = 0;
        while i < n
            invariant
                i <= n,
                n == self.packets@.len(),
                self.wf(),
                forall|k: int| 0 <= k < kept@.len() ==> (#[trigger] kept@[k])@.len() == PORT_PACKET_SIZE,
                kept@.map_values(|p: Vec<u8>| p@) == self.queue().subrange(0, i as int).filter(keeps(key)),
                kept@.len() <= i,
            decreases n - i,
        {
            let k = decode_le(&self.packets[i], 8);
            let ghost q = self.queue();
            let ghost s1 = q.subrange(0, i as int + 1);
            proof {
                assert(s1.drop_last() =~= q.subrange(0, i as int));
                assert(s1.last() == self.packets@[i as int]@);
                reveal(Seq::filter);
                assert(s1.filter(keeps(key)) == if keeps(key)(s1.last()) {
                    s1.drop_last().filter(keeps(key)).push(s1.last())
                } else {
                    s1.drop_last().filter(keeps(key))
                });
                q.subrange(0, i as int).lemma_filter_len(keeps(key));
            }
            proof {
                assert(packet_key(self.queue()[i as int]) == k);
            }
            if k != key {
                let ghost before = kept@;
                let c = self.packets[i].clone();
                proof {
                    assert(c@ =~= self.packets@[i as int]@);
                }
                kept.push_back(c);
                proof {
                    assert(kept@.map_values(|p: Vec<u8>| p@) =~= before.map_values(|p: Vec<u8>| p@).push(self.packets@[i as int]@));
                }
            }
            i = i + 1;
        }
        proof {
            assert(self.queue().subrange(0, n as int) =~= self.queue());
            self.queue().lemma_filter_len(keeps(key));
        }
        self.packets = kept;
        n - self.packets.len()
    }
}

/// Every port known to the kernel, each in the home slot of its id.
pub struct PortRegistry {
    pub table: HomeTable<PortEntry>,
}

impl PortRegistry {
    pub open spec fn wf(&self) -> bool {
        self.table.wf()
    }

    /// Port registered under `id`, as a lookup sees it.
    pub open spec fn find(&self, id: u64) -> Option<PortEntry> {
        self.table.find(id)
    }

    /// Every registered port holds whole packets only.
    pub open spec fn entries_wf(&self) -> bool {
        forall|i: int| 0 <= i < self.table.slots@.len() && #[trigger] self.table.slots@[i] is Some ==> (self.table.slots@[i]->0).1.wf()
    }

    /// An empty registry of `MAX_PORTS` slots.
    pub fn new() -> (r: PortRegistry)
        ensures
            r.wf(),
            r.entries_wf(),
            r.table.slots@.len() == MAX_PORTS,
            r.table.count == 0,
            r.table.next_index == 0,
            forall|i: int| 0 <= i < MAX_PORTS ==> r.table.slots@[i] is None,
    {
        PortRegistry { table: HomeTable::new(MAX_PORTS) }
    }

    /// Place `port` in the home slot of `id`; a taken slot is
    /// `RX_ERR_NO_RESOURCES`.
    pub fn insert(&mut self, id: u64, port: PortEntry) -> (r: Result<(), Status>)
        requires
            old(self).wf(),
        ensures
            final(self).wf(),
            final(self).table.next_index == old(self).table.next_index,
            ({
                let h = home_slot(id, old(self).table.slots@.len()) as int;
                if old(self).table.slots@[h] is None {
                    &&& r is Ok
                    &&& final(self).table.slots@ == old(self).table.slots@.update(h, Some((id, port)))
                    &&& final(self).table.count == old(self).table.count.wrapping_add(1)
                } else {
                    r == Err::<(), Status>(RX_ERR_NO_RESOURCES) && *final(self) == *old(self)
                }
            }),
    {
        self.table.insert_home(id, port)
    }

    /// Port registered under `id`.
    pub fn get(&self, id: u64) -> (r: Option<&PortEntry>)
        requires
            self.wf(),
        ensures
            r matches Some(v) ==> self.find(id) == Some(*v),
            r is None ==> self.find(id) is None,
    {
        self.table.get(id)
    }

    /// Empty the home slot of `id` when it holds `id`'s entry; otherwise
    /// `RX_ERR_NOT_FOUND`, and nothing changes.
    pub fn remove(&mut self, id: u64) -> (r: Result<(), Status>)
        requires
            old(self).wf(),
        ensures
            final(self).wf(),
            final(self).table.next_index == old(self).table.next_index,
            ({
                let h = home_slot(id, old(self).table.slots@.len()) as int;
                if old(self).table.slots@[h] is Some && (old(self).table.slots@[h]->0).0 == id {
                    &&& r is Ok
                    &&& final(self).table.slots@ == old(self).table.slots@.update(h, None)
                    &&& final(self).table.count == old(self).table.count.wrapping_sub(1)
                } else {
                    r == Err::<(), Status>(RX_ERR_NOT_FOUND) && *final(self) == *old(self)
                }
            }),
    {
        self.table.remove_id(id)
    }

    /// Number of ports counted as registered.
    pub fn count(&self) -> (c: usize)
        ensures
            c == self.table.count,
    {
        self.table.count
    }
}

/// The ports of the kernel and the next port id to hand out.
pub struct PortSubsystem {
    pub registry: PortRegistry,
    pub next_id: u64,
}

impl PortSubsystem {
    /// No ports; ids are handed out from 1.
    pub fn new() -> (s: PortSubsystem)
        ensures
            s.registry.wf(),
            s.registry.entries_wf(),
            s.registry.table.count == 0,
            s.next_id == 1,
            forall|id: u64| s.registry.find(id) is None,
    {
        PortSubsystem { registry: PortRegistry::new(), next_id: 1 }
    }
}

/// Create a port (options must be none) in the home slot of a fresh id,
/// and return the id.  The id is consumed even when the slot is taken.
pub fn sys_port_create_impl(sub: &mut PortSubsystem, options: u32) -> (r: SyscallRet)
    requires
        old(sub).registry.wf(),
        old(sub).registry.entries_wf(),
    ensures
        final(sub).registry.wf(),
        final(sub).registry.entries_wf(),
        ({
            let id = old(sub).next_id;
            let t0 = old(sub).registry.table;
            let t = final(sub).registry.table;
            let h = home_slot(id, t0.slots@.len()) as int;
            if options != port_options::NONE {
                r == -RX_ERR_INVALID_ARGS && *final(sub) == *old(sub)
            } else {
                &&& final(sub).next_id == id.wrapping_add(1)
                &&& t.next_index == t0.next_index
                &&& if t0.slots@[h] is Some {
                    r == -RX_ERR_NO_RESOURCES && t == t0
                } else {
                    &&& r == (#[verifier::truncate] (id as usize)) as isize
                    &&& t.slots@ == t0.slots@.update(h, t.slots@[h])
                    &&& t.slots@[h] matches Some((k, p)) && k == id && p.id == id && p.queue().len() == 0 && p.waiters == 0
                    &&& t.count == t0.count.wrapping_add(1)
                }
            }
        }),
{
    if options != port_options::NONE {
        return err_to_ret(RX_ERR_INVALID_ARGS);
    }
    let port_id = sub.next_id;
    sub.next_id = port_id.wrapping_add(1);
    let port = PortEntry::new(port_id);
    match sub.registry.insert(port_id, port) {
        Ok(()) => {},
        Err(err) => {
            return err_to_ret(err);
        },
    }
    proof {
        let h = home_slot(port_id, old(sub).registry.table.slots@.len()) as int;
        assert(sub.registry.table.slots@ =~= old(sub).registry.table.slots@.update(h, sub.registry.table.slots@[h]));
        assert forall|i: int| 0 <= i < sub.registry.table.slots@.len() && #[trigger] sub.registry.table.slots@[i] is Some implies (sub.registry.table.slots@[i]->0).1.wf() by {
            if i != h {
                assert(sub.registry.table.slots@[i] == old(sub).registry.table.slots@[i]);
            }
        }
    }
    ok_to_ret(#[verifier::truncate] (port_id as usize))
}

/// Copy a packet from user memory at `packet_in` onto the back of port
/// `handle_val`'s queue.
pub fn sys_port_queue_impl(sub: &mut PortSubsystem, mem: &UserMemory, handle_val: u32, packet_in: usize) -> (r: SyscallRet)
    requires
        old(sub).registry.wf(),
        old(sub).registry.entries_wf(),
    ensures
        final(sub).registry.wf(),
        final(sub).registry.entries_wf(),
        final(sub).next_id == old(sub).next_id,
        ({
            let unchanged = final(sub).registry.table == old(sub).registry.table;
            match old(sub).registry.find(handle_val as u64) {
                None => r == -RX_ERR_BAD_HANDLE && unchanged,
                Some(p) => if !mem.range_ok(packet_in, PORT_PACKET_SIZE) {
                    r == -RX_ERR_INVALID_ARGS && unchanged
                } else {
                    r == 0 && home_updated_such_that(old(sub).registry.table, final(sub).registry.table, handle_val as u64,
                        |q: PortEntry| q.wf() && q.id == p.id && q.waiters == p.waiters
                            && q.queue() == p.queue().push(mem.bytes_at(packet_in, PORT_PACKET_SIZE)))
                },
            }
        }),
{
    let port_id = handle_val as u64;
    match sub.registry.get(port_id) {
        Some(_) => {},
        None => {
            return err_to_ret(RX_ERR_BAD_HANDLE);
        },
    }
    let packet = match mem.copy_from_user(packet_in, PORT_PACKET_SIZE) {
        Ok(p) => p,
        Err(err) => {
            return err_to_ret(err);
        },
    };
    proof {
        let h = home_slot(port_id, sub.registry.table.slots@.len()) as int;
        assert(sub.registry.table.slots@[h] is Some);
    }
    let ghost before = sub.registry.table;
    match sub.registry.table.get_mut(port_id) {
        Some(port) => {
            port.push(packet);
        },
        None => {
            return err_to_ret(RX_ERR_BAD_HANDLE);
        },
    }
    proof {
        let h = home_slot(port_id, before.slots@.len()) as int;
        assert forall|i: int| 0 <= i < sub.registry.table.slots@.len() && #[trigger] sub.registry.table.slots@[i] is Some implies (sub.registry.table.slots@[i]->0).1.wf() by {
            if i != h {
                assert(sub.registry.table.slots@[i] == before.slots@[i]);
            }
        }
    }
    ok_to_ret(0)
}

/// Take the oldest packet of port `handle_val` and copy it to user memory
/// at `packet_out`.  With no packet queued the wait times out at once; the
/// packet is consumed even when the copy fails.
pub fn sys_port_wait_impl(sub: &mut PortSubsystem, mem: &mut UserMemory, handle_val: u32, deadline: u64, packet_out: usize) -> (r: SyscallRet)
    requires
        old(sub).registry.wf(),
        old(sub).registry.entries_wf(),
    ensures
        final(sub).registry.wf(),
        final(sub).registry.entries_wf(),
        final(sub).next_id == old(sub).next_id,
        final(mem).base == old(mem).base,
        ({
            let unchanged = final(sub).registry.table == old(sub).registry.table && *final(mem) == *old(mem);
            match old(sub).registry.find(handle_val as u64) {
                None => r == -RX_ERR_BAD_HANDLE && unchanged,
                Some(p) => if p.queue().len() == 0 {
                    r == -RX_ERR_TIMED_OUT && unchanged
                } else {
                    &&& home_updated_such_that(old(sub).registry.table, final(sub).registry.table, handle_val as u64,
                        |q: PortEntry| q.wf() && q.id == p.id && q.waiters == p.waiters && q.queue() == p.queue().drop_first())
                    &&& if !old(mem).range_ok(packet_out, PORT_PACKET_SIZE) {
                        r == -RX_ERR_INVALID_ARGS && *final(mem) == *old(mem)
                    } else {
                        r == 0 && final(mem).bytes@ == old(mem).written(packet_out, p.queue()[0])
                    }
                },
            }
        }),
{
    let port_id = handle_val as u64;
    match sub.registry.get(port_id) {
        Some(p) => {
            if p.packets.len() == 0 {
                return err_to_ret(RX_ERR_TIMED_OUT);
            }
        },
        None => {
            return err_to_ret(RX_ERR_BAD_HANDLE);
        },
    }
    proof {
        let h = home_slot(port_id, sub.registry.table.slots@.len()) as int;
        assert(sub.registry.table.slots@[h] is Some);
        assert((sub.registry.table.slots@[h]->0).1.wf());
    }
    let ghost before = sub.registry.table;
    let packet = match sub.registry.table.get_mut(port_id) {
        Some(port) => {
            match port.pop() {
                Some(p) => p,
                None => {
                    return err_to_ret(RX_ERR_TIMED_OUT);
                },
            }
        },
        None => {
            return err_to_ret(RX_ERR_BAD_HANDLE);
        },
    };
    proof {
        let h = home_slot(port_id, before.slots@.len()) as int;
        assert forall|i: int| 0 <= i < sub.registry.table.slots@.len() && #[trigger] sub.registry.table.slots@[i] is Some implies (sub.registry.table.slots@[i]->0).1.wf() by {
            if i != h {
                assert(sub.registry.table.slots@[i] == before.slots@[i]);
            }
        }
    }
    match mem.copy_to_user(packet_out, packet.as_slice()) {
        Ok(()) => {},
        Err(err) => {
            return err_to_ret(err);
        },
    }
    ok_to_ret(0)
}

/// Drop every packet with key `key` from port `handle_val`'s queue; a zero
/// source handle is refused, and dropping nothing is `RX_ERR_NOT_FOUND`.
pub fn sys_port_cancel_impl(sub: &mut PortSubsystem, handle_val: u32, source_handle: u32, key: u64) -> (r: SyscallRet)
    requires
        old(sub).registry.wf(),
        old(sub).registry.entries_wf(),
    ensures
        final(sub).registry.wf(),
        final(sub).registry.entries_wf(),
        final(sub).next_id == old(sub).next_id,
        ({
            let unchanged = final(sub).registry.table == old(sub).registry.table;
            match old(sub).registry.find(handle_val as u64) {
                None => r == -RX_ERR_BAD_HANDLE && unchanged,
                Some(p) => if source_handle == 0 {
                    r == -RX_ERR_BAD_HANDLE && unchanged
                } else {
                    let kept = p.queue().filter(keeps(key));
                    &&& home_updated_such_that(old(sub).registry.table, final(sub).registry.table, handle_val as u64,
                        |q: PortEntry| q.wf() && q.id == p.id && q.waiters == p.waiters && q.queue() == kept)
                    &&& r == if kept.len() < p.queue().len() { 0 } else { -RX_ERR_NOT_FOUND }
                    &&& (r == 0 <==> exists|i: int| 0 <= i < p.queue().len() && packet_key(#[trigger] p.queue()[i]) == key)
                },
            }
        }),
{
    let port_id = handle_val as u64;
    match sub.registry.get(port_id) {
        Some(_) => {},
        None => {
            return err_to_ret(RX_ERR_BAD_HANDLE);
        },
    }
    if source_handle == 0 {
        return err_to_ret(RX_ERR_BAD_HANDLE);
    }
    proof {
        let h = home_slot(port_id, sub.registry.table.slots@.len()) as int;
        assert(sub.registry.table.slots@[h] is Some);
        assert((sub.registry.table.slots@[h]->0).1.wf());
        lemma_cancel_drops_iff_queued((sub.registry.table.slots@[h]->0).1.queue(), key);
    }
    let ghost before = sub.registry.table;
    let removed = match sub.registry.table.get_mut(port_id) {
        Some(port) => port.cancel(key),
        None => {
            return err_to_ret(RX_ERR_BAD_HANDLE);
        },
    };
    proof {
        let h = home_slot(port_id, before.slots@.len()) as int;
        assert forall|i: int| 0 <= i < sub.registry.table.slots@.len() && #[trigger] sub.registry.table.slots@[i] is Some implies (sub.registry.table.slots@[i]->0).1.wf() by {
            if i != h {
                assert(sub.registry.table.slots@[i] == before.slots@[i]);
            }
        }
    }
    if removed > 0 {
        ok_to_ret(0)
    } else {
        err_to_ret(RX_ERR_NOT_FOUND)
    }
}

/// Port subsystem statistics.
#[derive(Clone, Copy, Debug)]
pub struct PortStats {
    pub total_ports: usize,
    pub total_queued: u64,
    pub total_waiters: u64,
}

/// Current port statistics: how many ports are registered (queued packets
/// and waiters are not tracked).
pub fn get_stats(sub: &PortSubsystem) -> (st: PortStats)
    ensures
        st.total_ports == sub.registry.table.count,
        st.total_queued == 0,
        st.total_waiters == 0,
{
    PortStats { total_ports: sub.registry.count(), total_queued: 0, total_waiters: 0 }
}

/// Initialize the port syscall subsystem (nothing to set up).
pub fn init() {
}

/// Packets are taken in the order they were queued: a packet queued on an
/// empty port is the next one taken, and taking it leaves the port empty;
/// queued behind others, it leaves the oldest to be taken first and stays
/// last.
pub proof fn lemma_packet_order(q: Seq<Seq<u8>>, p: Seq<u8>)
    ensures
        q.len() == 0 ==> q.push(p)[0] == p && q.push(p).drop_first().len() == 0,
        q.len() > 0 ==> q.push(p)[0] == q[0] && q.push(p).drop_first() == q.drop_first().push(p),
{
    if q.len() > 0 {
        assert(q.push(p).drop_first() =~= q.drop_first().push(p));
    }
}

/// Cancelling is idempotent: once the packets with `key` are dropped, a
/// second cancellation of `key` drops nothing.
pub proof fn lemma_cancel_idempotent(q: Seq<Seq<u8>>, key: u64)
    ensures
        q.filter(keeps(key)).filter(keeps(key)) == q.filter(keeps(key)),
    decreases q.len(),
{
    reveal(Seq::filter);
    if q.len() > 0 {
        lemma_cancel_idempotent(q.drop_last(), key);
        let fd = q.drop_last().filter(keeps(key));
        if keeps(key)(q.last()) {
            assert(fd.push(q.last()).drop_last() =~= fd);
            assert(fd.push(q.last()).last() == q.last());
        }
    } else {
        assert(q.filter(keeps(key)) =~= Seq::<Seq<u8>>::empty());
    }
}

/// Cancelling keeps exactly the packets with another key, in their order:
/// no kept packet has `key`, and every packet with another key is kept.
pub proof fn lemma_cancel_keeps_others(q: Seq<Seq<u8>>, key: u64)
    ensures
        forall|i: int| 0 <= i < q.filter(keeps(key)).len() ==> packet_key(#[trigger] q.filter(keeps(key))[i]) != key,
        forall|p: Seq<u8>| #[trigger] q.contains(p) && packet_key(p) != key ==> q.filter(keeps(key)).contains(p),
{
    assert forall|i: int| 0 <= i < q.filter(keeps(key)).len() implies packet_key(#[trigger] q.filter(keeps(key))[i]) != key by {
        broadcast use vstd::seq_lib::group_filter_ensures;
        assert(keeps(key)(q.filter(keeps(key))[i]));
    }
    assert forall|p: Seq<u8>| #[trigger] q.contains(p) && packet_key(p) != key implies q.filter(keeps(key)).contains(p) by {
        broadcast use vstd::seq_lib::group_filter_ensures;
        assert(keeps(key)(p));
    }
}


/// Cancelling drops something exactly when some queued packet has `key`.
pub proof fn lemma_cancel_drops_iff_queued(q: Seq<Seq<u8>>, key: u64)
    ensures
        q.filter(keeps(key)).len() <= q.len(),
        q.filter(keeps(key)).len() < q.len() <==> exists|i: int| 0 <= i < q.len() && packet_key(#[trigger] q[i]) == key,
    decreases q.len(),
{
    reveal(Seq::filter);
    if q.len() > 0 {
        let d = q.drop_last();
        lemma_cancel_drops_iff_queued(d, key);
        if exists|i: int| 0 <= i < d.len() && packet_key(#[trigger] d[i]) == key {
            let i = choose|i: int| 0 <= i < d.len() && packet_key(#[trigger] d[i]) == key;
            assert(packet_key(q[i]) == key);
        }
        if exists|i: int| 0 <= i < q.len() && packet_key(#[trigger] q[i]) == key {
            let i = choose|i: int| 0 <= i < q.len() && packet_key(#[trigger] q[i]) == key;
            if i < d.len() {
                assert(packet_key(d[i]) == key);
            }
        }
    }
}

} // verus!

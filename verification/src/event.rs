//! Events and event pairs, and the syscalls that create and signal them.
use vstd::prelude::*;
use crate::status::{Status, RX_ERR_NO_RESOURCES, RX_ERR_INVALID_ARGS, RX_ERR_NOT_FOUND, RX_ERR_WRONG_TYPE, RX_ERR_ACCESS_DENIED};
use crate::registry::{SlotTable, slot_of, lemma_slot_of, lemma_lookup_update, insert_post, insert_result, insert_pos, remove_post, home_slot, lemma_insert_pos_home, lemma_insert_pos_free};
use crate::kobject::{Handle, HandleTable, ObjectType, Rights, RIGHTS_SIGNAL, RIGHTS_WAIT, install_post, pair_lookup};
use crate::object_wait::{WaitQueueRegistry, wake_waiters, waiters_woken, entries_of, queue_slot, lemma_signal_releases_matching};
use crate::object_wait::signal::USER_0;
use crate::{SyscallRet, err_to_ret, ok_to_ret};

verus! {

/// Identifier of an event.
pub type EventId = u64;

/// Identifier of one side of an event pair.
pub type EventPairId = u64;

/// Capacity of the event and event-pair registries.
pub const MAX_EVENTS: usize = 65536;

/// Flag bit: the event stays signaled until it is explicitly reset.
pub const EVENT_FLAG_MANUAL_RESET: u32 = 0x1;

/// Creation flags of an event.
#[derive(Clone, Copy, Debug, PartialEq, Eq, Structural)]
pub struct EventFlags {
    pub bits: u32,
}

impl EventFlags {
    /// No flag set: an auto-reset event.
    pub fn empty() -> (f: EventFlags)
        ensures
            f.bits == 0,
    {
        EventFlags { bits: 0 }
    }

    /// The manual-reset flag alone.
    pub fn manual_reset() -> (f: EventFlags)
        ensures
            f.bits == EVENT_FLAG_MANUAL_RESET,
    {
        EventFlags { bits: EVENT_FLAG_MANUAL_RESET }
    }

    /// Whether the manual-reset flag is set.
    pub fn is_manual_reset(&self) -> (b: bool)
        ensures
            b == (self.bits & EVENT_FLAG_MANUAL_RESET != 0),
    {
        self.bits & EVENT_FLAG_MANUAL_RESET != 0
    }
}

/// A binary event: signaled or not.
#[derive(Clone, Copy, Debug, PartialEq, Eq, Structural)]
pub struct Event {
    pub id: EventId,
    pub signaled: bool,
    pub flags: EventFlags,
}

impl Event {
    /// A new event with the given id, initial state and flags.
    pub fn new(id: EventId, initial_signaled: bool, flags: EventFlags) -> (e: Event)
        ensures
            e == (Event { id, signaled: initial_signaled, flags }),
    {
        Event { id, signaled: initial_signaled, flags }
    }

    /// Set the event.
    pub fn signal(&mut self)
        ensures
            *final(self) == (Event { signaled: true, ..*old(self) }),
    {
        self.signaled = true;
    }

    /// Reset the event.
    pub fn unsignal(&mut self)
        ensures
            *final(self) == (Event { signaled: false, ..*old(self) }),
    {
        self.signaled = false;
    }

    /// Whether the event is set.
    pub fn is_signaled(&self) -> (b: bool)
        ensures
            b == self.signaled,
    {
        self.signaled
    }
}

/// One side of an event pair; `peer` is the id of the other side.
#[derive(Clone, Copy, Debug, PartialEq, Eq, Structural)]
pub struct EventPair {
    pub id: EventPairId,
    pub peer: EventPairId,
    pub signaled: bool,
}

impl EventPair {
    /// Two unsignaled sides, with ids `first_id` and the id after it, each
    /// naming the other as its peer.
    pub fn create(first_id: EventPairId) -> (r: Result<(EventPair, EventPair), Status>)
        ensures
            ({
                let second = first_id.wrapping_add(1);
                r == Ok::<(EventPair, EventPair), Status>((
                    EventPair { id: first_id, peer: second, signaled: false },
                    EventPair { id: second, peer: first_id, signaled: false },
                ))
            }),
    {
        let second = first_id.wrapping_add(1);
        Ok((EventPair { id: first_id, peer: second, signaled: false }, EventPair { id: second, peer: first_id, signaled: false }))
    }

    /// Set this side.
    pub fn signal(&mut self)
        ensures
            *final(self) == (EventPair { signaled: true, ..*old(self) }),
    {
        self.signaled = true;
    }

    /// Whether this side is set.
    pub fn is_signaled(&self) -> (b: bool)
        ensures
            b == self.signaled,
    {
        self.signaled
    }
}

/// Every event known to the kernel, by id.
pub struct EventRegistry {
    pub table: SlotTable<Event>,
}

impl EventRegistry {
    pub open spec fn wf(&self) -> bool {
        self.table.wf()
    }

    /// Object registered under `id`, as a lookup sees it.
    pub open spec fn find(&self, id: u64) -> Option<Event> {
        self.table.find(id)
    }

    /// An empty registry of `MAX_EVENTS` slots.
    pub fn new() -> (r: EventRegistry)
        ensures
            r.wf(),
            r.table.slots@.len() == MAX_EVENTS,
            r.table.count == 0,
            r.table.next_index == 0,
            forall|i: int| 0 <= i < MAX_EVENTS ==> r.table.slots@[i] is None,
            forall|id: u64| #[trigger] r.table.find(id) is None,
    {
        EventRegistry { table: SlotTable::new(MAX_EVENTS) }
    }

    /// Register `obj` under its id, in the first free slot probing the
    /// whole table from its home slot.
    pub fn insert(&mut self, obj: Event) -> (r: Result<u64, Status>)
        requires
            old(self).wf(),
        ensures
            final(self).wf(),
            insert_post(old(self).table, final(self).table, obj.id, obj, r),
    {
        let id = obj.id;
        self.table.insert(id, obj)
    }

    /// Object registered under `id`, as a lookup finds it.
    pub fn get(&self, id: u64) -> (r: Option<&Event>)
        requires
            self.wf(),
        ensures
            r matches Some(v) ==> self.find(id) == Some(*v),
            r is None ==> self.find(id) is None,
    {
        self.table.get(id)
    }

    /// Remove the entry a lookup of `id` finds, handing its object back.
    pub fn remove(&mut self, id: u64) -> (r: Option<Event>)
        requires
            old(self).wf(),
        ensures
            final(self).wf(),
            remove_post(old(self).table, final(self).table, id, r),
    {
        self.table.remove(id)
    }

    /// Number of objects counted as registered.
    pub fn count(&self) -> (c: usize)
        ensures
            c == self.table.count,
    {
        self.table.count
    }
}

/// Every event-pair side known to the kernel, by id.
pub struct EventPairRegistry {
    pub table: SlotTable<EventPair>,
}

impl EventPairRegistry {
    pub open spec fn wf(&self) -> bool {
        self.table.wf()
    }

    /// Object registered under `id`, as a lookup sees it.
    pub open spec fn find(&self, id: u64) -> Option<EventPair> {
        self.table.find(id)
    }

    /// An empty registry of `MAX_EVENTS` slots.
    pub fn new() -> (r: EventPairRegistry)
        ensures
            r.wf(),
            r.table.slots@.len() == MAX_EVENTS,
            r.table.count == 0,
            r.table.next_index == 0,
            forall|i: int| 0 <= i < MAX_EVENTS ==> r.table.slots@[i] is None,
            forall|id: u64| #[trigger] r.table.find(id) is None,
    {
        EventPairRegistry { table: SlotTable::new(MAX_EVENTS) }
    }

    /// Register `obj` under its id, in the first free slot probing the
    /// whole table from its home slot.
    pub fn insert(&mut self, obj: EventPair) -> (r: Result<u64, Status>)
        requires
            old(self).wf(),
        ensures
            final(self).wf(),
            insert_post(old(self).table, final(self).table, obj.id, obj, r),
    {
        let id = obj.id;
        self.table.insert(id, obj)
    }

    /// Object registered under `id`, as a lookup finds it.
    pub fn get(&self, id: u64) -> (r: Option<&EventPair>)
        requires
            self.wf(),
        ensures
            r matches Some(v) ==> self.find(id) == Some(*v),
            r is None ==> self.find(id) is None,
    {
        self.table.get(id)
    }

    /// Remove the entry a lookup of `id` finds, handing its object back.
    pub fn remove(&mut self, id: u64) -> (r: Option<EventPair>)
        requires
            old(self).wf(),
        ensures
            final(self).wf(),
            remove_post(old(self).table, final(self).table, id, r),
    {
        self.table.remove(id)
    }

    /// Number of objects counted as registered.
    pub fn count(&self) -> (c: usize)
        ensures
            c == self.table.count,
    {
        self.table.count
    }
}

/// The events and event pairs of the kernel, and the next id to hand out
/// (events and event pairs draw from one sequence, so their handles never
/// collide).
pub struct EventSubsystem {
    pub events: EventRegistry,
    pub pairs: EventPairRegistry,
    pub next_id: u64,
}

impl EventSubsystem {
    /// No events; ids are handed out from 1.
    pub fn new() -> (s: EventSubsystem)
        ensures
            s.events.wf(),
            s.pairs.wf(),
            s.events.table.count == 0,
            s.pairs.table.count == 0,
            s.next_id == 1,
            forall|id: u64| s.events.find(id) is None,
            forall|id: u64| s.pairs.find(id) is None,
    {
        EventSubsystem { events: EventRegistry::new(), pairs: EventPairRegistry::new(), next_id: 1 }
    }
}

/// Flags an event is created with: option bit 1 asks for manual reset.
pub open spec fn event_flags_of(options: u32) -> EventFlags {
    if options & 0x02 != 0 {
        EventFlags { bits: EVENT_FLAG_MANUAL_RESET }
    } else {
        EventFlags { bits: 0 }
    }
}

/// Outcome of creating an event: `r` is the result and a name ending in `_after` is that state after the call.
pub open spec fn event_create_outcome(
    sub: EventSubsystem,
    sub_after: EventSubsystem,
    handles: HandleTable,
    handles_after: HandleTable,
    options: u32,
    r: SyscallRet,
) -> bool {
    &&& sub_after.pairs == sub.pairs
    &&& ({
        let id = sub.next_id;
        let e = Event { id, signaled: options & 0x01 != 0, flags: event_flags_of(options) };
        let rr = insert_result(sub.events.table, id);
        &&& insert_post(sub.events.table, sub_after.events.table, id, e, rr)
        &&& match rr {
            Err(err) => r == -err && sub_after.next_id == sub.next_id && handles_after == handles,
            Ok(_) => {
                &&& r == (#[verifier::truncate] (id as u32)) as isize
                &&& sub_after.next_id == id.wrapping_add(1)
                &&& install_post(handles, handles_after, #[verifier::truncate] (id as u32), Handle { obj_type: ObjectType::Event, id, rights: RIGHTS_SIGNAL | RIGHTS_WAIT })
            },
        }
    })
}

/// Law: an event created while the registry has room is registered under
/// the next id, signalled exactly when option bit 0x01 is set, and with the
/// manual-reset flag (bit 0x1) exactly when option bit 0x02 is set.
pub proof fn lemma_event_created_as_asked(
    sub: EventSubsystem,
    sub_after: EventSubsystem,
    handles: HandleTable,
    handles_after: HandleTable,
    options: u32,
    r: SyscallRet,
)
    requires
        sub.events.wf(),
        event_create_outcome(sub, sub_after, handles, handles_after, options, r),
        insert_result(sub.events.table, sub.next_id) is Ok,
    ensures
        exists|i: int| 0 <= i < sub_after.events.table.slots@.len() && #[trigger] sub_after.events.table.slots@[i] == Some((
            sub.next_id,
            Event {
                id: sub.next_id,
                signaled: options & 0x01 != 0,
                flags: EventFlags { bits: if options & 0x02 != 0 { 0x1u32 } else { 0u32 } },
            },
        )),
{
    let id = sub.next_id;
    let e = Event { id, signaled: options & 0x01 != 0, flags: event_flags_of(options) };
    crate::registry::lemma_insert_post_slot(sub.events.table, sub_after.events.table, id, e, insert_result(sub.events.table, id));
}

/// Create an event (option bit 0: initially signaled; bit 1: manual reset)
/// and a handle to it, whose value is the event's id.
pub fn sys_event_create_impl(sub: &mut EventSubsystem, handles: &mut HandleTable, options: u32) -> (r: SyscallRet)
    requires
        old(sub).events.wf(),
        old(handles).wf(),
    ensures
        final(sub).events.wf(),
        final(handles).wf(),
        event_create_outcome(*old(sub), *final(sub), *old(handles), *final(handles), options, r),
{
    let initial_signaled = (options & 0x01) != 0;
    let flags = if (options & 0x02) != 0 { EventFlags::manual_reset() } else { EventFlags::empty() };
    let id = sub.next_id;
    let event = Event::new(id, initial_signaled, flags);
    let event_id = match sub.events.insert(event) {
        Ok(id) => id,
        Err(err) => {
            return err_to_ret(err);
        },
    };
    sub.next_id = sub.next_id.wrapping_add(1);
    let handle_value = #[verifier::truncate] (event_id as u32);
    let h = Handle::new(ObjectType::Event, event_id, RIGHTS_SIGNAL | RIGHTS_WAIT);
    let _ = handles.install(handle_value, h);
    ok_to_ret(handle_value as usize)
}

/// Outcome of creating an event pair: `r` is the result and a name ending in `_after` is that state after the call.
pub open spec fn eventpair_create_outcome(
    sub: EventSubsystem,
    sub_after: EventSubsystem,
    handles: HandleTable,
    handles_after: HandleTable,
    r: SyscallRet,
) -> bool {
    &&& sub_after.events == sub.events
    &&& ({
        let id_a = sub.next_id;
        let id_b = id_a.wrapping_add(1);
        let a = EventPair { id: id_a, peer: id_b, signaled: false };
        let b = EventPair { id: id_b, peer: id_a, signaled: false };
        let t0 = sub.pairs.table;
        let n = t0.slots@.len();
        let t = sub_after.pairs.table;
        match insert_pos(t0.slots@, t0.next_index as nat, id_a) {
            None => r == -RX_ERR_NO_RESOURCES && sub_after == sub && handles_after == handles,
            Some(pa) => {
                let s1 = t0.slots@.update(pa, Some((id_a, a)));
                let n1 = (pa + 1) % (n as int);
                let c1 = t0.count.wrapping_add(1);
                match insert_pos(s1, n1 as nat, id_b) {
                    None => {
                        let ra = slot_of(s1, id_a);
                        &&& r == -RX_ERR_NO_RESOURCES
                        &&& 0 <= ra < n
                        &&& t.slots@ == s1.update(ra, None)
                        &&& t.next_index == n1
                        &&& t.count == c1.wrapping_sub(1)
                        &&& sub_after.next_id == sub.next_id
                        &&& handles_after == handles
                    },
                    Some(pb) => {
                        let va = #[verifier::truncate] (id_a as u32);
                        let vb = #[verifier::truncate] (id_b as u32);
                        let hda = Handle { obj_type: ObjectType::EventPair, id: id_a, rights: RIGHTS_SIGNAL | RIGHTS_WAIT };
                        let hdb = Handle { obj_type: ObjectType::EventPair, id: id_b, rights: RIGHTS_SIGNAL | RIGHTS_WAIT };
                        &&& t.slots@ == s1.update(pb, Some((id_b, b)))
                        &&& t.next_index == (pb + 1) % (n as int)
                        &&& t.count == c1.wrapping_add(1)
                        &&& sub_after.next_id == id_a.wrapping_add(2)
                        &&& r == (((vb as u64) << 32u64 | va as u64) as usize) as isize
                        &&& forall|v: u32| #[trigger] handles_after.lookup(v) == pair_lookup(handles, va, hda, vb, hdb, v)
                    },
                }
            },
        }
    })
}

/// Create an event pair and a handle to each side, whose values are the
/// sides' ids; the result packs the second handle above the first.  When the
/// second side finds no slot, the first side is removed again and the
/// insertion failure is returned.
pub fn sys_eventpair_create_impl(sub: &mut EventSubsystem, handles: &mut HandleTable) -> (r: SyscallRet)
    requires
        old(sub).pairs.wf(),
        old(handles).wf(),
    ensures
        final(sub).pairs.wf(),
        final(handles).wf(),
        eventpair_create_outcome(*old(sub), *final(sub), *old(handles), *final(handles), r),
{
    let first = sub.next_id;
    let (pair_a, pair_b) = match EventPair::create(first) {
        Ok(pairs) => pairs,
        Err(err) => {
            return err_to_ret(err);
        },
    };
    let id_a = match sub.pairs.insert(pair_a) {
        Ok(id) => id,
        Err(err) => {
            return err_to_ret(err);
        },
    };
    let id_b = match sub.pairs.insert(pair_b) {
        Ok(id) => id,
        Err(err) => {
            proof {
                lemma_insert_pos_free(old(sub).pairs.table.slots@, old(sub).pairs.table.next_index as nat, id_a);
                lemma_slot_of(sub.pairs.table.slots@, id_a);
                let pa = insert_pos(old(sub).pairs.table.slots@, old(sub).pairs.table.next_index as nat, id_a)->0;
                assert(crate::registry::holds(sub.pairs.table.slots@, pa, id_a));
            }
            let _ = sub.pairs.remove(id_a);
            return err_to_ret(err);
        },
    };
    sub.next_id = sub.next_id.wrapping_add(2);
    let handle_value_a = #[verifier::truncate] (id_a as u32);
    let handle_value_b = #[verifier::truncate] (id_b as u32);
    proof {
        assert(handle_value_a != handle_value_b) by (bit_vector)
            requires
                handle_value_a == #[verifier::truncate] (id_a as u32),
                handle_value_b == #[verifier::truncate] ((id_a.wrapping_add(1)) as u32),
                id_b == id_a.wrapping_add(1);
    }
    let ghost h0 = *handles;
    let ha = Handle::new(ObjectType::EventPair, id_a, RIGHTS_SIGNAL | RIGHTS_WAIT);
    let hb = Handle::new(ObjectType::EventPair, id_b, RIGHTS_SIGNAL | RIGHTS_WAIT);
    let _ = handles.install(handle_value_a, ha);
    let ghost h1 = *handles;
    let _ = handles.install(handle_value_b, hb);
    proof {
        assert forall|v: u32| #[trigger] handles.lookup(v) == pair_lookup(h0, handle_value_a, ha, handle_value_b, hb, v) by {
            if v != handle_value_b {
                assert(handles.lookup(v) == h1.lookup(v));
            }
            if v != handle_value_a {
                assert(h1.lookup(v) == h0.lookup(v));
            }
        }
    }
    let packed = (handle_value_b as u64) << 32u64 | (handle_value_a as u64);
    ok_to_ret(#[verifier::truncate] (packed as usize))
}

/// The event reached through handle value `hv`: the handle must exist,
/// refer to an event or an event pair, carry `rights`, and name a
/// registered event.
pub open spec fn event_for_handle(handles: HandleTable, reg: EventRegistry, hv: u32, rights: Rights) -> Result<(Handle, Event), Status> {
    match handles.lookup(hv) {
        None => Err(RX_ERR_INVALID_ARGS),
        Some(h) => if h.obj_type != ObjectType::Event && h.obj_type != ObjectType::EventPair {
            Err(RX_ERR_WRONG_TYPE)
        } else if h.rights & rights != rights {
            Err(RX_ERR_ACCESS_DENIED)
        } else {
            match reg.find(h.id) {
                None => Err(RX_ERR_NOT_FOUND),
                Some(e) => Ok((h, e)),
            }
        },
    }
}

/// The event-pair side reached through handle value `hv`: the handle must
/// exist, refer to an event pair, carry `rights`, and name a registered side.
pub open spec fn eventpair_for_handle(handles: HandleTable, reg: EventPairRegistry, hv: u32, rights: Rights) -> Result<(Handle, EventPair), Status> {
    match handles.lookup(hv) {
        None => Err(RX_ERR_INVALID_ARGS),
        Some(h) => if h.obj_type != ObjectType::EventPair {
            Err(RX_ERR_WRONG_TYPE)
        } else if h.rights & rights != rights {
            Err(RX_ERR_ACCESS_DENIED)
        } else {
            match reg.find(h.id) {
                None => Err(RX_ERR_NOT_FOUND),
                Some(p) => Ok((h, p)),
            }
        },
    }
}

/// Resolve a handle value to the event it refers to.
fn lookup_event_from_handle(handles: &HandleTable, reg: &EventRegistry, handle_val: u32, required_rights: Rights) -> (r: Result<(Handle, Event), Status>)
    requires
        handles.wf(),
        reg.wf(),
    ensures
        r == event_for_handle(*handles, *reg, handle_val, required_rights),
{
    let handle = match handles.get(handle_val) {
        Some(h) => h,
        None => {
            return Err(RX_ERR_INVALID_ARGS);
        },
    };
    if handle.obj_type != ObjectType::Event && handle.obj_type != ObjectType::EventPair {
        return Err(RX_ERR_WRONG_TYPE);
    }
    match handle.require(required_rights) {
        Ok(()) => {},
        Err(e) => {
            return Err(e);
        },
    }
    match reg.get(handle.id) {
        Some(e) => Ok((handle, *e)),
        None => Err(RX_ERR_NOT_FOUND),
    }
}

/// Resolve a handle value to the event-pair side it refers to.
fn lookup_eventpair_from_handle(handles: &HandleTable, reg: &EventPairRegistry, handle_val: u32, required_rights: Rights) -> (r: Result<(Handle, EventPair), Status>)
    requires
        handles.wf(),
        reg.wf(),
    ensures
        r == eventpair_for_handle(*handles, *reg, handle_val, required_rights),
{
    let handle = match handles.get(handle_val) {
        Some(h) => h,
        None => {
            return Err(RX_ERR_INVALID_ARGS);
        },
    };
    if handle.obj_type != ObjectType::EventPair {
        return Err(RX_ERR_WRONG_TYPE);
    }
    match handle.require(required_rights) {
        Ok(()) => {},
        Err(e) => {
            return Err(e);
        },
    }
    match reg.get(handle.id) {
        Some(p) => Ok((handle, *p)),
        None => Err(RX_ERR_NOT_FOUND),
    }
}

/// Signals a signal call raises: option 0 means the first user signal.
pub open spec fn signal_mask_of(options: u32) -> u64 {
    if options == 0 {
        USER_0
    } else {
        options as u64
    }
}

/// Outcome of signalling the object behind `handle_val`: `r` is the result and a name ending in `_after` is that state after the call.
pub open spec fn object_signal_outcome(
    sub: EventSubsystem,
    sub_after: EventSubsystem,
    handles: HandleTable,
    waits: WaitQueueRegistry,
    waits_after: WaitQueueRegistry,
    handle_val: u32,
    options: u32,
    r: SyscallRet,
) -> bool {
    &&& sub_after.next_id == sub.next_id
    &&& sub_after.events.table.count == sub.events.table.count
    &&& sub_after.pairs.table.count == sub.pairs.table.count
    &&& match event_for_handle(handles, sub.events, handle_val, RIGHTS_SIGNAL) {
        Ok((h, e)) => {
            &&& r == 0
            &&& sub_after.events.table.slots@ == sub.events.table.slots@.update(
                slot_of(sub.events.table.slots@, h.id),
                Some((h.id, Event { signaled: true, ..e })),
            )
            &&& sub_after.pairs.table.slots@ == sub.pairs.table.slots@
            &&& waiters_woken(waits, waits_after, handle_val, signal_mask_of(options))
        },
        Err(_) => match eventpair_for_handle(handles, sub.pairs, handle_val, RIGHTS_SIGNAL) {
            Ok((h, p)) => {
                &&& r == 0
                &&& sub_after.pairs.table.slots@ == sub.pairs.table.slots@.update(
                    slot_of(sub.pairs.table.slots@, h.id),
                    Some((h.id, EventPair { signaled: true, ..p })),
                )
                &&& sub_after.events.table.slots@ == sub.events.table.slots@
                &&& waiters_woken(waits, waits_after, handle_val, signal_mask_of(options))
            },
            Err(_) => {
                &&& r == -RX_ERR_INVALID_ARGS
                &&& sub_after.events.table.slots@ == sub.events.table.slots@
                &&& sub_after.pairs.table.slots@ == sub.pairs.table.slots@
                &&& waits_after == waits
            },
        },
    }
}

/// Law: a signal call that succeeds raises the signals `options` names
/// (the first user signal, `0x0100_0000`, for options 0) on the waiters of
/// `handle_val`: every waiter waiting for one of them is released and its
/// thread woken, every other waiter stays queued, and no waiter left queued
/// waits for one of them.
pub proof fn lemma_signal_wakes_waiters_of(
    sub: EventSubsystem,
    sub_after: EventSubsystem,
    handles: HandleTable,
    waits: WaitQueueRegistry,
    waits_after: WaitQueueRegistry,
    handle_val: u32,
    options: u32,
    r: SyscallRet,
)
    requires
        object_signal_outcome(sub, sub_after, handles, waits, waits_after, handle_val, options, r),
        r == 0,
    ensures
        ({
            let m: u64 = if options == 0 { 0x0100_0000u64 } else { options as u64 };
            let q = entries_of(waits.queues@[queue_slot(handle_val)]);
            let q2 = entries_of(waits_after.queues@[queue_slot(handle_val)]);
            let woken = waits_after.ready@.subrange(waits.ready@.len() as int, waits_after.ready@.len() as int);
            &&& waits_after.ready@.subrange(0, waits.ready@.len() as int) == waits.ready@
            &&& forall|k: int| 0 <= k < q.len() && (#[trigger] q[k]).signals & m != 0 ==> woken.contains(q[k].thread_id)
            &&& forall|k: int| 0 <= k < q.len() && (#[trigger] q[k]).signals & m == 0 ==> q2.contains(q[k])
            &&& forall|j: int| 0 <= j < q2.len() ==> (#[trigger] q2[j]).signals & m == 0
        }),
{
    let m: u64 = if options == 0 { 0x0100_0000u64 } else { options as u64 };
    let q = entries_of(waits.queues@[queue_slot(handle_val)]);
    assert(waiters_woken(waits, waits_after, handle_val, m));
    lemma_signal_releases_matching(q, m);
    let woken = waits_after.ready@.subrange(waits.ready@.len() as int, waits_after.ready@.len() as int);
    assert(woken =~= crate::object_wait::released_threads(q, m));
    assert(waits_after.ready@.subrange(0, waits.ready@.len() as int) =~= waits.ready@);
}

/// Signal the event or event-pair side behind `handle_val` (the handle needs
/// the signal right) and wake the threads waiting on that handle; any other
/// handle is refused with `RX_ERR_INVALID_ARGS`.
pub fn sys_object_signal_impl(sub: &mut EventSubsystem, handles: &HandleTable, waits: &mut WaitQueueRegistry, handle_val: u32, options: u32) -> (r: SyscallRet)
    requires
        old(sub).events.wf(),
        old(sub).pairs.wf(),
        handles.wf(),
        old(waits).wf(),
    ensures
        final(sub).events.wf(),
        final(sub).pairs.wf(),
        object_signal_outcome(*old(sub), *final(sub), *handles, *old(waits), *final(waits), handle_val,
            options, r),
{
    let signal_mask: u64 = if options == 0 { USER_0 } else { options as u64 };
    if let Ok((handle, _e)) = lookup_event_from_handle(handles, &sub.events, handle_val, RIGHTS_SIGNAL) {
        match sub.events.table.get_mut(handle.id) {
            Some(event) => {
                event.signal();
            },
            None => {},
        }
        let _woken = wake_waiters(waits, handle_val, signal_mask);
        return ok_to_ret(0);
    }
    if let Ok((handle, _p)) = lookup_eventpair_from_handle(handles, &sub.pairs, handle_val, RIGHTS_SIGNAL) {
        match sub.pairs.table.get_mut(handle.id) {
            Some(pair) => {
                pair.signal();
            },
            None => {},
        }
        let _woken = wake_waiters(waits, handle_val, signal_mask);
        return ok_to_ret(0);
    }
    err_to_ret(RX_ERR_INVALID_ARGS)
}

/// Event subsystem statistics.
#[derive(Clone, Copy, Debug)]
pub struct EventStats {
    pub total_events: usize,
    pub total_eventpairs: usize,
    pub signaled_count: usize,
}

/// Current event statistics: how many events and event-pair sides are
/// registered (signaled events are not tracked).
pub fn get_stats(sub: &EventSubsystem) -> (st: EventStats)
    ensures
        st.total_events == sub.events.table.count,
        st.total_eventpairs == sub.pairs.table.count,
        st.signaled_count == 0,
{
    EventStats { total_events: sub.events.count(), total_eventpairs: sub.pairs.count(), signaled_count: 0 }
}

/// Initialize the event syscall subsystem (nothing to set up).
pub fn init() {
}

} // verus!

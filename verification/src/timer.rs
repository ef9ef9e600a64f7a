//! Timer syscalls and the timer objects they manage.
use vstd::prelude::*;
use crate::status::{Status, RX_ERR_BAD_STATE, RX_ERR_INVALID_ARGS, RX_ERR_NOT_FOUND, RX_ERR_OUT_OF_RANGE, RX_ERR_WRONG_TYPE, RX_ERR_ACCESS_DENIED};
use crate::registry::{SlotTable, slot_of, lemma_slot_of, lemma_lookup_update, insert_post, insert_result, remove_post, home_slot};
use crate::kobject::{Handle, HandleTable, ObjectType, Rights, RIGHTS_SIGNAL, RIGHTS_WRITE, install_post};
use crate::{SyscallRet, err_to_ret, ok_to_ret};

verus! {

/// Identifier of a timer.
pub type TimerId = u64;

/// Capacity of the timer registry.
pub const MAX_TIMERS: usize = 65536;

/// Only the monotonic clock can drive timers.
pub const CLOCK_MONOTONIC: u32 = 0;

/// Lifecycle of a timer.
#[derive(Clone, Copy, Debug, PartialEq, Eq, Structural)]
pub enum TimerState {
    Disarmed,
    Armed,
    Fired,
    Canceled,
}

/// A timer: when armed it fires at `deadline`, give or take `slack`, and
/// again every `period` when periodic.
#[derive(Clone, Copy, Debug, PartialEq, Eq, Structural)]
pub struct Timer {
    pub id: TimerId,
    pub state: TimerState,
    pub deadline: u64,
    pub slack: u64,
    pub period: Option<u64>,
}

impl Timer {
    /// A disarmed one-shot timer.
    pub fn create(id: TimerId) -> (r: Result<Timer, Status>)
        ensures
            r == Ok::<Timer, Status>(Timer { id, state: TimerState::Disarmed, deadline: 0, slack: 0, period: None }),
    {
        Ok(Timer { id, state: TimerState::Disarmed, deadline: 0, slack: 0, period: None })
    }

    /// Arm the timer for `deadline`; no slack means zero slack.
    pub fn set(&mut self, deadline: u64, slack: Option<u64>) -> (r: Result<(), Status>)
        ensures
            r is Ok,
            *final(self) == (Timer {
                state: TimerState::Armed,
                deadline,
                slack: match slack {
                    Some(s) => s,
                    None => 0,
                },
                ..*old(self)
            }),
    {
        self.state = TimerState::Armed;
        self.deadline = deadline;
        self.slack = match slack {
            Some(s) => s,
            None => 0,
        };
        Ok(())
    }

    /// Arm the timer for `deadline` and every `period` after it.
    pub fn set_periodic(&mut self, deadline: u64, period: u64, slack: Option<u64>) -> (r: Result<(), Status>)
        ensures
            r is Ok,
            *final(self) == (Timer {
                state: TimerState::Armed,
                deadline,
                slack: match slack {
                    Some(s) => s,
                    None => 0,
                },
                period: Some(period),
                ..*old(self)
            }),
    {
        self.state = TimerState::Armed;
        self.deadline = deadline;
        self.slack = match slack {
            Some(s) => s,
            None => 0,
        };
        self.period = Some(period);
        Ok(())
    }

    /// Cancel an armed timer; any other timer is in the wrong state.
    pub fn cancel(&mut self) -> (r: Result<(), Status>)
        ensures
            old(self).state == TimerState::Armed ==> r is Ok && *final(self) == (Timer { state: TimerState::Canceled, ..*old(self) }),
            old(self).state != TimerState::Armed ==> r == Err::<(), Status>(RX_ERR_BAD_STATE) && *final(self) == *old(self),
    {
        if self.state == TimerState::Armed {
            self.state = TimerState::Canceled;
            Ok(())
        } else {
            Err(RX_ERR_BAD_STATE)
        }
    }

    pub fn state(&self) -> (s: TimerState)
        ensures
            s == self.state,
    {
        self.state
    }

    pub fn deadline(&self) -> (d: u64)
        ensures
            d == self.deadline,
    {
        self.deadline
    }

    pub fn slack(&self) -> (s: u64)
        ensures
            s == self.slack,
    {
        self.slack
    }

    pub fn period(&self) -> (p: Option<u64>)
        ensures
            p == self.period,
    {
        self.period
    }
}

/// Every timer known to the kernel, by id.
pub struct TimerRegistry {
    pub table: SlotTable<Timer>,
}

impl TimerRegistry {
    pub open spec fn wf(&self) -> bool {
        self.table.wf()
    }

    /// Object registered under `id`, as a lookup sees it.
    pub open spec fn find(&self, id: u64) -> Option<Timer> {
        self.table.find(id)
    }

    /// An empty registry of `MAX_TIMERS` slots.
    pub fn new() -> (r: TimerRegistry)
        ensures
            r.wf(),
            r.table.slots@.len() == MAX_TIMERS,
            r.table.count == 0,
            r.table.next_index == 0,
            forall|i: int| 0 <= i < MAX_TIMERS ==> r.table.slots@[i] is None,
            forall|id: u64| #[trigger] r.table.find(id) is None,
    {
        TimerRegistry { table: SlotTable::new(MAX_TIMERS) }
    }

    /// Register `obj` under its id, in the first free slot probing the
    /// whole table from its home slot.
    pub fn insert(&mut self, obj: Timer) -> (r: Result<u64, Status>)
        requires
            old(self).wf(),
        ensures
            final(self).wf(),
            insert_post(old(self).table, final(self).table, obj.id, obj, r),
    {
        let id = obj.id;
        self.table.insert(id, obj)
    }

    /// Object registered under `id`, as a lookup finds it.
    pub fn get(&self, id: u64) -> (r: Option<&Timer>)
        requires
            self.wf(),
        ensures
            r matches Some(v) ==> self.find(id) == Some(*v),
            r is None ==> self.find(id) is None,
    {
        self.table.get(id)
    }

    /// Remove the entry a lookup of `id` finds, handing its object back.
    pub fn remove(&mut self, id: u64) -> (r: Option<Timer>)
        requires
            old(self).wf(),
        ensures
            final(self).wf(),
            remove_post(old(self).table, final(self).table, id, r),
    {
        self.table.remove(id)
    }

    /// Number of objects counted as registered.
    pub fn count(&self) -> (c: usize)
        ensures
            c == self.table.count,
    {
        self.table.count
    }
}

/// The timer objects of the kernel and the next timer id to hand out.
pub struct TimerSubsystem {
    pub registry: TimerRegistry,
    pub next_id: TimerId,
}

impl TimerSubsystem {
    /// No timers; ids are handed out from 0.
    pub fn new() -> (s: TimerSubsystem)
        ensures
            s.registry.wf(),
            s.registry.table.count == 0,
            s.next_id == 0,
            forall|id: u64| s.registry.find(id) is None,
    {
        TimerSubsystem { registry: TimerRegistry::new(), next_id: 0 }
    }
}

/// The timer reached through handle value `hv` when the handle carries
/// `rights`: the handle must exist, refer to a timer, carry the rights, and
/// the timer must be registered.
pub open spec fn timer_for_handle(handles: HandleTable, reg: TimerRegistry, hv: u32, rights: Rights) -> Result<(Handle, Timer), Status> {
    match handles.lookup(hv) {
        None => Err(RX_ERR_INVALID_ARGS),
        Some(h) => if h.obj_type != ObjectType::Timer {
            Err(RX_ERR_WRONG_TYPE)
        } else if h.rights & rights != rights {
            Err(RX_ERR_ACCESS_DENIED)
        } else {
            match reg.find(h.id) {
                None => Err(RX_ERR_NOT_FOUND),
                Some(t) => Ok((h, t)),
            }
        },
    }
}

/// Resolve a handle value to the timer it refers to.
fn lookup_timer_from_handle(handles: &HandleTable, reg: &TimerRegistry, handle_val: u32, required_rights: Rights) -> (r: Result<(Handle, Timer), Status>)
    requires
        handles.wf(),
        reg.wf(),
    ensures
        r == timer_for_handle(*handles, *reg, handle_val, required_rights),
{
    let handle = match handles.get(handle_val) {
        Some(h) => h,
        None => {
            return Err(RX_ERR_INVALID_ARGS);
        },
    };
    if handle.obj_type != ObjectType::Timer {
        return Err(RX_ERR_WRONG_TYPE);
    }
    match handle.require(required_rights) {
        Ok(()) => {},
        Err(e) => {
            return Err(e);
        },
    }
    match reg.get(handle.id) {
        Some(t) => Ok((handle, *t)),
        None => Err(RX_ERR_NOT_FOUND),
    }
}

/// Outcome of creating a timer: `r` is the result and a name ending in `_after` is that state after the call.
pub open spec fn timer_create_outcome(
    sub: TimerSubsystem,
    sub_after: TimerSubsystem,
    handles: HandleTable,
    handles_after: HandleTable,
    options: u32,
    clock_id: u32,
    r: SyscallRet,
) -> bool {
    &&& ({
        let id = sub.next_id;
        let t = Timer { id, state: TimerState::Disarmed, deadline: 0, slack: 0, period: None };
        if options != 0 || clock_id != CLOCK_MONOTONIC {
            r == -RX_ERR_INVALID_ARGS && sub_after == sub && handles_after == handles
        } else {
            let rr = insert_result(sub.registry.table, id);
            insert_post(sub.registry.table, sub_after.registry.table, id, t, rr)
                && match rr {
                    Err(e) => r == -e && sub_after.next_id == sub.next_id && handles_after == handles,
                    Ok(_) => {
                        &&& r == (#[verifier::truncate] (id as u32)) as isize
                        &&& sub_after.next_id == id.wrapping_add(1)
                        &&& install_post(handles, handles_after, #[verifier::truncate] (id as u32), Handle { obj_type: ObjectType::Timer, id, rights: RIGHTS_WRITE | RIGHTS_SIGNAL })
                    },
                }
        }
    })
}

/// Create a timer on the monotonic clock and a handle to it, whose value
/// is the timer's id.
pub fn sys_timer_create_impl(sub: &mut TimerSubsystem, handles: &mut HandleTable, options: u32, clock_id: u32) -> (r: SyscallRet)
    requires
        old(sub).registry.wf(),
        old(handles).wf(),
    ensures
        final(sub).registry.wf(),
        final(handles).wf(),
        timer_create_outcome(*old(sub), *final(sub), *old(handles), *final(handles), options, clock_id, r),
{
    if options != 0 {
        return err_to_ret(RX_ERR_INVALID_ARGS);
    }
    if clock_id != CLOCK_MONOTONIC {
        return err_to_ret(RX_ERR_INVALID_ARGS);
    }
    let id = sub.next_id;
    let timer = match Timer::create(id) {
        Ok(t) => t,
        Err(err) => {
            return err_to_ret(err);
        },
    };
    let ghost t = timer;
    let rr = sub.registry.insert(timer);
    let timer_id = match rr {
        Ok(id) => id,
        Err(err) => {
            return err_to_ret(err);
        },
    };
    sub.next_id = sub.next_id.wrapping_add(1);
    let handle_value = #[verifier::truncate] (timer_id as u32);
    let _ = handles.install(handle_value, Handle::new(ObjectType::Timer, timer_id, RIGHTS_WRITE | RIGHTS_SIGNAL));
    ok_to_ret(handle_value as usize)
}

/// Outcome of arming a timer: `r` is the result and a name ending in `_after` is that state after the call.
pub open spec fn timer_set_outcome(
    sub: TimerSubsystem,
    sub_after: TimerSubsystem,
    handles: HandleTable,
    handle_val: u32,
    deadline: u64,
    slack: i64,
    r: SyscallRet,
) -> bool {
    &&& sub_after.next_id == sub.next_id
    &&& slack < 0 ==> r == -RX_ERR_OUT_OF_RANGE && sub_after.registry.table.slots@ == sub.registry.table.slots@
    &&& slack >= 0 ==> match timer_for_handle(handles, sub.registry, handle_val, RIGHTS_WRITE) {
        Err(e) => r == -e && sub_after.registry.table.slots@ == sub.registry.table.slots@,
        Ok((h, t)) => r == 0 && sub_after.registry.table.slots@ == sub.registry.table.slots@.update(
            slot_of(sub.registry.table.slots@, h.id),
            Some((h.id, Timer { state: TimerState::Armed, deadline, slack: slack as u64, ..t })),
        ),
    }
}

/// Arm the timer behind `handle_val` (which needs the write right) for
/// `deadline` with `slack`, which must not be negative.
pub fn sys_timer_set_impl(sub: &mut TimerSubsystem, handles: &HandleTable, handle_val: u32, deadline: u64, slack: i64) -> (r: SyscallRet)
    requires
        old(sub).registry.wf(),
        handles.wf(),
    ensures
        final(sub).registry.wf(),
        timer_set_outcome(*old(sub), *final(sub), *handles, handle_val, deadline, slack, r),
{
    if slack < 0 {
        return err_to_ret(RX_ERR_OUT_OF_RANGE);
    }
    let (handle, _timer) = match lookup_timer_from_handle(handles, &sub.registry, handle_val, RIGHTS_WRITE) {
        Ok(x) => x,
        Err(err) => {
            return err_to_ret(err);
        },
    };
    let slack_option = if slack >= 0 { Some(slack as u64) } else { None };
    match sub.registry.table.get_mut(handle.id) {
        Some(timer) => {
            match timer.set(deadline, slack_option) {
                Ok(()) => ok_to_ret(0),
                Err(err) => err_to_ret(err),
            }
        },
        None => err_to_ret(RX_ERR_NOT_FOUND),
    }
}

/// Outcome of cancelling the timer behind `handle_val`: `r` is the result, `sub_after` the subsystem afterwards.
pub open spec fn timer_cancel_outcome(
    sub: TimerSubsystem,
    sub_after: TimerSubsystem,
    handles: HandleTable,
    handle_val: u32,
    r: SyscallRet,
) -> bool {
    &&& sub_after.next_id == sub.next_id
    &&& match timer_for_handle(handles, sub.registry, handle_val, RIGHTS_WRITE) {
        Err(e) => r == -e && sub_after.registry.table.slots@ == sub.registry.table.slots@,
        Ok((h, t)) => r == 0 && sub_after.registry.table.slots@ == sub.registry.table.slots@.update(
            slot_of(sub.registry.table.slots@, h.id),
            Some((h.id, if t.state == TimerState::Armed { Timer { state: TimerState::Canceled, ..t } } else { t })),
        ),
    }
}

/// Cancel the timer behind `handle_val` (which needs the write right); a
/// timer that was not armed is left alone and still reports success.
pub fn sys_timer_cancel_impl(sub: &mut TimerSubsystem, handles: &HandleTable, handle_val: u32) -> (r: SyscallRet)
    requires
        old(sub).registry.wf(),
        handles.wf(),
    ensures
        final(sub).registry.wf(),
        timer_cancel_outcome(*old(sub), *final(sub), *handles, handle_val, r),
{
    let (handle, _timer) = match lookup_timer_from_handle(handles, &sub.registry, handle_val, RIGHTS_WRITE) {
        Ok(x) => x,
        Err(err) => {
            return err_to_ret(err);
        },
    };
    match sub.registry.table.get_mut(handle.id) {
        Some(timer) => {
            match timer.cancel() {
                Ok(()) => ok_to_ret(0),
                Err(err) => {
                    if err == RX_ERR_BAD_STATE {
                        ok_to_ret(0)
                    } else {
                        err_to_ret(err)
                    }
                },
            }
        },
        None => err_to_ret(RX_ERR_NOT_FOUND),
    }
}

/// Timer subsystem statistics.
#[derive(Clone, Copy, Debug)]
pub struct TimerStats {
    pub total_timers: usize,
    pub armed_timers: usize,
    pub fired_count: u64,
}

/// Current timer statistics.
pub fn get_stats(sub: &TimerSubsystem) -> (st: TimerStats)
    ensures
        st.total_timers == sub.registry.table.count,
        st.armed_timers == 0,
        st.fired_count == 0,
{
    TimerStats { total_timers: sub.registry.count(), armed_timers: 0, fired_count: 0 }
}

/// Initialize the timer syscall subsystem (nothing to set up).
pub fn init() {
}

} // verus!

//! Futexes: per-address wait queues with an owner, and the syscalls that
//! wait on, wake and requeue them.
use vstd::prelude::*;
use std::collections::BTreeMap;
use crate::status::{Status, RX_ERR_INVALID_ARGS, RX_ERR_NOT_SUPPORTED};
use crate::usercopy::UserMemory;
use crate::{SyscallRet, err_to_ret, ok_to_ret};

verus! {

/// The value stored at a futex address.
pub type FutexValue = u32;

/// A futex's user address.
pub type FutexAddr = usize;

/// Owner of a futex (a thread id); zero is no owner.
pub type FutexOwner = u64;

/// The owner value meaning "no owner".
pub const FUTEX_OWNER_INVALID: FutexOwner = 0;

/// The state of one futex: how many threads wait on it and its owner.
#[derive(Clone, Copy, Debug, PartialEq, Eq, Structural)]
pub struct FutexState {
    pub waiters: usize,
    pub owner: FutexOwner,
}

impl FutexState {
    /// No waiters and no owner.
    pub fn new() -> (s: FutexState)
        ensures
            s == (FutexState { waiters: 0, owner: FUTEX_OWNER_INVALID }),
    {
        FutexState { waiters: 0, owner: FUTEX_OWNER_INVALID }
    }

    pub fn get_owner(&self) -> (o: FutexOwner)
        ensures
            o == self.owner,
    {
        self.owner
    }

    pub fn set_owner(&mut self, owner: FutexOwner)
        ensures
            *final(self) == (FutexState { owner, ..*old(self) }),
    {
        self.owner = owner;
    }
}

/// The futexes in use, by address, and how many have been created.
pub struct FutexContext {
    pub futexes: BTreeMap<FutexAddr, FutexState>,
    pub count: usize,
}

impl FutexContext {
    /// The futexes as a map from address to state.
    pub open spec fn states(&self) -> Map<FutexAddr, FutexState> {
        self.futexes@
    }

    /// No futexes.
    pub fn new() -> (c: FutexContext)
        ensures
            c.states() == Map::<FutexAddr, FutexState>::empty(),
            c.count == 0,
    {
        FutexContext { futexes: BTreeMap::new(), count: 0 }
    }

    /// The state of the futex at `addr`, creating it (and counting it) when
    /// it does not exist yet.
    pub fn get_or_create(&mut self, addr: FutexAddr) -> (s: FutexState)
        ensures
            old(self).states().contains_key(addr) ==> s == old(self).states()[addr] && final(self).states() == old(self).states()
                && final(self).count == old(self).count,
            !old(self).states().contains_key(addr) ==> s == FutexState::new_spec()
                && final(self).states() == old(self).states().insert(addr, FutexState::new_spec())
                && final(self).count == old(self).count.wrapping_add(1),
    {
        match self.futexes.get(&addr) {
            Some(s) => *s,
            None => {
                let s = FutexState::new();
                self.futexes.insert(addr, s);
                self.count = self.count.wrapping_add(1);
                s
            },
        }
    }

    /// Forget the futex at `addr` when nobody waits on it.
    pub fn cleanup_if_empty(&mut self, addr: FutexAddr)
        ensures
            (old(self).states().contains_key(addr) && old(self).states()[addr].waiters == 0) ==> final(self).states() == old(self).states().remove(addr)
                && final(self).count == old(self).count.wrapping_sub(1),
            !(old(self).states().contains_key(addr) && old(self).states()[addr].waiters == 0) ==> final(self).states() == old(self).states()
                && final(self).count == old(self).count,
    {
        let empty = match self.futexes.get(&addr) {
            Some(s) => s.waiters == 0,
            None => false,
        };
        if empty {
            let _ = self.futexes.remove(&addr);
            self.count = self.count.wrapping_sub(1);
        }
    }

    /// Number of futexes counted as created.
    pub fn count(&self) -> (c: usize)
        ensures
            c == self.count,
    {
        self.count
    }
}

impl FutexState {
    /// The state of a fresh futex.
    pub open spec fn new_spec() -> FutexState {
        FutexState { waiters: 0, owner: FUTEX_OWNER_INVALID }
    }
}

/// A futex state after a wake of `count` waiters (zero: all) that hands
/// ownership to `new_owner` unless that is no owner.
pub open spec fn woken_state(s: FutexState, count: u32, new_owner: FutexOwner) -> FutexState {
    FutexState {
        waiters: (s.waiters - woken_count(s, count)) as usize,
        owner: if new_owner != FUTEX_OWNER_INVALID { new_owner } else { s.owner },
    }
}

/// How many waiters a wake of `count` wakes: all of them for zero,
/// otherwise at most `count`.
pub open spec fn woken_count(s: FutexState, count: u32) -> usize {
    if count == 0 || s.waiters <= count {
        s.waiters
    } else {
        count as usize
    }
}

/// Wait on the futex at `user_addr`: the address must be a valid user
/// address; the futex is then created if needed, but blocking is not
/// supported.
pub fn futex_wait(ctx: &mut FutexContext, mem: &UserMemory, user_addr: FutexAddr, expected_value: FutexValue, owner: FutexOwner, deadline: Option<u64>) -> (r: Result<(), Status>)
    ensures
        !mem.valid_addr(user_addr) ==> r == Err::<(), Status>(RX_ERR_INVALID_ARGS) && final(ctx).states() == old(ctx).states()
            && final(ctx).count == old(ctx).count,
        mem.valid_addr(user_addr) ==> r == Err::<(), Status>(RX_ERR_NOT_SUPPORTED)
            && final(ctx).states() == (if old(ctx).states().contains_key(user_addr) {
                old(ctx).states()
            } else {
                old(ctx).states().insert(user_addr, FutexState::new_spec())
            })
            && final(ctx).count == (if old(ctx).states().contains_key(user_addr) { old(ctx).count } else { old(ctx).count.wrapping_add(1) }),
{
    if !mem.is_valid(user_addr) {
        return Err(RX_ERR_INVALID_ARGS);
    }
    let _state = ctx.get_or_create(user_addr);
    Err(RX_ERR_NOT_SUPPORTED)
}

/// Wake waiters of the futex at `user_addr`: all of them when `count` is
/// zero, one otherwise, handing ownership to `new_owner` unless that is no
/// owner.  A futex nobody created wakes nobody.
pub fn futex_wake(ctx: &mut FutexContext, user_addr: FutexAddr, count: u32, new_owner: FutexOwner) -> (r: Result<usize, Status>)
    ensures
        final(ctx).count == old(ctx).count,
        old(ctx).states().contains_key(user_addr) ==> ({
            let s = old(ctx).states()[user_addr];
            r == Ok::<usize, Status>(woken_count(s, count))
                && final(ctx).states() == old(ctx).states().insert(user_addr, woken_state(s, count, new_owner))
        }),
        !old(ctx).states().contains_key(user_addr) ==> r == Ok::<usize, Status>(0) && final(ctx).states() == old(ctx).states(),
{
    let mut state = match ctx.futexes.get(&user_addr) {
        Some(s) => *s,
        None => {
            return Ok(0);
        },
    };
    if new_owner != FUTEX_OWNER_INVALID {
        state.set_owner(new_owner);
    }
    let woken: usize = if count == 0 || state.waiters <= count as usize {
        state.waiters
    } else {
        count as usize
    };
    state.waiters = state.waiters - woken;
    ctx.futexes.insert(user_addr, state);
    Ok(woken)
}

/// The futex map after the wake step of a requeue: `wake_count` (non-zero)
/// waiters of the futex at `wake_addr`, if it exists, are woken (at most as
/// many as wait there).
pub open spec fn after_wake(m: Map<FutexAddr, FutexState>, wake_addr: FutexAddr, wake_count: u32) -> Map<FutexAddr, FutexState> {
    if wake_count > 0 && m.contains_key(wake_addr) {
        let s = m[wake_addr];
        m.insert(wake_addr, FutexState { waiters: (s.waiters - woken_count(s, wake_count)) as usize, ..s })
    } else {
        m
    }
}

/// How many waiters the wake step of a requeue wakes.
pub open spec fn requeue_woken(m: Map<FutexAddr, FutexState>, wake_addr: FutexAddr, wake_count: u32) -> usize {
    if wake_count > 0 && m.contains_key(wake_addr) { woken_count(m[wake_addr], wake_count) } else { 0 }
}

/// How many of the waiters left at `wake_addr` a requeue of `requeue_count`
/// moves: at most `requeue_count`, at most as many as are left.
pub open spec fn requeue_moved(m1: Map<FutexAddr, FutexState>, wake_addr: FutexAddr, requeue_count: u32) -> usize {
    if requeue_count > 0 && m1.contains_key(wake_addr) {
        if m1[wake_addr].waiters <= requeue_count { m1[wake_addr].waiters } else { requeue_count as usize }
    } else {
        0
    }
}

/// `a + b`, held at `usize::MAX`.
pub open spec fn sat_add(a: usize, b: usize) -> usize {
    if a + b > usize::MAX { usize::MAX } else { (a + b) as usize }
}

/// The futex map after a requeue: the wake step (see `after_wake`), then,
/// when `requeue_count` is non-zero, the waiters moved (see
/// `requeue_moved`) leave `wake_addr` and join the futex at
/// `requeue_addr`, which is created if needed and handed to
/// `requeue_owner` unless that is no owner.
pub open spec fn requeued(m: Map<FutexAddr, FutexState>, wake_addr: FutexAddr, wake_count: u32, requeue_addr: FutexAddr, requeue_count: u32, requeue_owner: FutexOwner) -> Map<FutexAddr, FutexState> {
    let m1 = after_wake(m, wake_addr, wake_count);
    let moved = requeue_moved(m1, wake_addr, requeue_count);
    if requeue_count > 0 {
        let m2 = if m1.contains_key(wake_addr) {
            m1.insert(wake_addr, FutexState { waiters: (m1[wake_addr].waiters - moved) as usize, ..m1[wake_addr] })
        } else {
            m1
        };
        let s = if m2.contains_key(requeue_addr) { m2[requeue_addr] } else { FutexState::new_spec() };
        m2.insert(requeue_addr, FutexState {
            waiters: sat_add(s.waiters, moved),
            owner: if requeue_owner != FUTEX_OWNER_INVALID { requeue_owner } else { s.owner },
        })
    } else {
        m1
    }
}

/// Wake up to `wake_count` waiters of the futex at `wake_addr` and move up
/// to `requeue_count` of the rest onto the futex at `requeue_addr`,
/// returning how many waiters were woken or moved.
pub fn futex_requeue(
    ctx: &mut FutexContext,
    wake_addr: FutexAddr,
    wake_count: u32,
    expected_value: FutexValue,
    requeue_addr: FutexAddr,
    requeue_count: u32,
    requeue_owner: FutexOwner,
) -> (r: Result<usize, Status>)
    ensures
        final(ctx).states() == requeued(old(ctx).states(), wake_addr, wake_count, requeue_addr, requeue_count, requeue_owner),
        r == Ok::<usize, Status>((requeue_woken(old(ctx).states(), wake_addr, wake_count)
            + requeue_moved(after_wake(old(ctx).states(), wake_addr, wake_count), wake_addr, requeue_count)) as usize),
        final(ctx).count == if requeue_count > 0 && !old(ctx).states().contains_key(requeue_addr) {
            old(ctx).count.wrapping_add(1)
        } else {
            old(ctx).count
        },
{
    let mut woken: usize = 0;
    if wake_count > 0 {
        match ctx.futexes.get(&wake_addr) {
            Some(s) => {
                let mut state = *s;
                woken = if state.waiters <= wake_count as usize { state.waiters } else { wake_count as usize };
                state.waiters = state.waiters - woken;
                ctx.futexes.insert(wake_addr, state);
            },
            None => {},
        }
    }
    let ghost m1 = ctx.futexes@;
    proof {
        assert(m1 =~= after_wake(old(ctx).states(), wake_addr, wake_count));
    }
    let mut moved: usize = 0;
    if requeue_count > 0 {
        match ctx.futexes.get(&wake_addr) {
            Some(s) => {
                let mut state = *s;
                moved = if state.waiters <= requeue_count as usize { state.waiters } else { requeue_count as usize };
                state.waiters = state.waiters - moved;
                ctx.futexes.insert(wake_addr, state);
            },
            None => {},
        }
        let mut state = ctx.get_or_create(requeue_addr);
        state.waiters = if state.waiters > usize::MAX - moved { usize::MAX } else { state.waiters + moved };
        if requeue_owner != FUTEX_OWNER_INVALID {
            state.set_owner(requeue_owner);
        }
        ctx.futexes.insert(requeue_addr, state);
    }
    proof {
        assert(ctx.futexes@ =~= requeued(old(ctx).states(), wake_addr, wake_count, requeue_addr, requeue_count, requeue_owner));
    }
    Ok(woken + moved)
}

/// Wait on the futex at `user_addr` (see `futex_wait`).
pub fn sys_futex_wait_impl(ctx: &mut FutexContext, mem: &UserMemory, user_addr: FutexAddr, expected_value: FutexValue, current_owner: FutexOwner, deadline: Option<u64>) -> (r: SyscallRet)
    ensures
        !mem.valid_addr(user_addr) ==> r == -RX_ERR_INVALID_ARGS && final(ctx).states() == old(ctx).states(),
        mem.valid_addr(user_addr) ==> r == -RX_ERR_NOT_SUPPORTED && final(ctx).states() == (if old(ctx).states().contains_key(user_addr) {
            old(ctx).states()
        } else {
            old(ctx).states().insert(user_addr, FutexState::new_spec())
        }),
{
    match futex_wait(ctx, mem, user_addr, expected_value, current_owner, deadline) {
        Ok(()) => ok_to_ret(0),
        Err(err) => err_to_ret(err),
    }
}

/// Wake `count` waiters (zero: all) of the futex at `user_addr`, returning
/// how many were reported woken.
pub fn sys_futex_wake_impl(ctx: &mut FutexContext, user_addr: FutexAddr, count: u32) -> (r: SyscallRet)
    ensures
        old(ctx).states().contains_key(user_addr) ==> ({
            let s = old(ctx).states()[user_addr];
            r == woken_count(s, count) as isize && final(ctx).states() == old(ctx).states().insert(user_addr, woken_state(s, count, FUTEX_OWNER_INVALID))
        }),
        !old(ctx).states().contains_key(user_addr) ==> r == 0 && final(ctx).states() == old(ctx).states(),
{
    match futex_wake(ctx, user_addr, count, FUTEX_OWNER_INVALID) {
        Ok(woken) => ok_to_ret(woken),
        Err(err) => err_to_ret(err),
    }
}

/// Wake one waiter of the futex at `user_addr`; the caller's thread id is
/// not known here, so no owner is recorded.
pub fn sys_futex_wake_single_owner_impl(ctx: &mut FutexContext, user_addr: FutexAddr) -> (r: SyscallRet)
    ensures
        old(ctx).states().contains_key(user_addr) ==> r == woken_count(old(ctx).states()[user_addr], 1) as isize && final(ctx).states() == old(ctx).states().insert(
            user_addr,
            woken_state(old(ctx).states()[user_addr], 1, FUTEX_OWNER_INVALID),
        ),
        !old(ctx).states().contains_key(user_addr) ==> r == 0 && final(ctx).states() == old(ctx).states(),
{
    let owner: FutexOwner = 0;
    match futex_wake(ctx, user_addr, 1, owner) {
        Ok(woken) => ok_to_ret(woken),
        Err(err) => err_to_ret(err),
    }
}

/// Wake and requeue waiters (see `futex_requeue`), returning how many were
/// affected.
pub fn sys_futex_requeue_impl(
    ctx: &mut FutexContext,
    wake_addr: FutexAddr,
    wake_count: u32,
    expected_value: FutexValue,
    requeue_addr: FutexAddr,
    requeue_count: u32,
    requeue_owner: FutexOwner,
) -> (r: SyscallRet)
    ensures
        final(ctx).states() == requeued(old(ctx).states(), wake_addr, wake_count, requeue_addr, requeue_count, requeue_owner),
        r == ((requeue_woken(old(ctx).states(), wake_addr, wake_count)
            + requeue_moved(after_wake(old(ctx).states(), wake_addr, wake_count), wake_addr, requeue_count)) as usize) as isize,
{
    match futex_requeue(ctx, wake_addr, wake_count, expected_value, requeue_addr, requeue_count, requeue_owner) {
        Ok(affected) => ok_to_ret(affected),
        Err(err) => err_to_ret(err),
    }
}

/// Wake one waiter at `wake_addr` and requeue waiters (see
/// `futex_requeue`).
pub fn sys_futex_requeue_single_owner_impl(
    ctx: &mut FutexContext,
    wake_addr: FutexAddr,
    expected_value: FutexValue,
    requeue_addr: FutexAddr,
    requeue_count: u32,
    requeue_owner: FutexOwner,
) -> (r: SyscallRet)
    ensures
        final(ctx).states() == requeued(old(ctx).states(), wake_addr, 1, requeue_addr, requeue_count, requeue_owner),
        r == ((requeue_woken(old(ctx).states(), wake_addr, 1)
            + requeue_moved(after_wake(old(ctx).states(), wake_addr, 1), wake_addr, requeue_count)) as usize) as isize,
{
    match futex_requeue(ctx, wake_addr, 1, expected_value, requeue_addr, requeue_count, requeue_owner) {
        Ok(affected) => ok_to_ret(affected),
        Err(err) => err_to_ret(err),
    }
}

/// The owner of the futex at `user_addr`, or zero when it does not exist.
pub fn sys_futex_get_owner_impl(ctx: &FutexContext, user_addr: FutexAddr) -> (r: SyscallRet)
    ensures
        r == if ctx.states().contains_key(user_addr) { (ctx.states()[user_addr].owner as usize) as isize } else { 0 },
{
    match ctx.futexes.get(&user_addr) {
        Some(state) => ok_to_ret(#[verifier::truncate] (state.get_owner() as usize)),
        None => ok_to_ret(0),
    }
}

/// Futex subsystem statistics.
#[derive(Clone, Copy, Debug)]
pub struct FutexStats {
    pub active_futexes: usize,
    pub total_waiters: usize,
}

/// Current futex statistics: how many futexes are counted (waiters are not
/// totalled).
pub fn get_stats(ctx: &FutexContext) -> (st: FutexStats)
    ensures
        st.active_futexes == ctx.count,
        st.total_waiters == 0,
{
    FutexStats { active_futexes: ctx.count(), total_waiters: 0 }
}

/// Initialize the futex syscall subsystem (nothing to set up).
pub fn init() {
}

} // verus!

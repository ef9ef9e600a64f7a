//! Waiting on object signals: wait queues per handle, the single- and
//! multi-object wait syscalls, and asynchronous waits.
use vstd::prelude::*;
use crate::status::{Status, RX_ERR_BAD_HANDLE, RX_ERR_CANCELED, RX_ERR_OUT_OF_RANGE, RX_ERR_TIMED_OUT};
use crate::usercopy::{UserMemory, le_bytes, le_value};
use crate::{SyscallRet, err_to_ret, ok_to_ret};

pub mod wait_options;
pub mod signal;

verus! {

/// Most handles a multi-object wait may name.
pub const MAX_WAIT_HANDLE_COUNT: usize = 16;

/// Size of one `WaitItem` record in user memory: handle (4 bytes, then 4
/// bytes of padding), signals waited for (8), signals pending (8).
pub const WAIT_ITEM_SIZE: usize = 24;

/// One entry of a multi-object wait.
#[derive(Clone, Copy, Debug)]
pub struct WaitItem {
    pub handle: u32,
    pub waitfor: u64,
    pub pending: u64,
}

/// Records which signals were observed during a wait.
pub struct WaitStateObserver {
    pub handle: u32,
    pub signals: u64,
    pub initialized: bool,
    pub observed: u64,
}

impl WaitStateObserver {
    /// An observer not yet watching anything.
    pub fn new() -> (o: WaitStateObserver)
        ensures
            o.handle == 0 && o.signals == 0 && !o.initialized && o.observed == 0,
    {
        WaitStateObserver { handle: 0, signals: 0, initialized: false, observed: 0 }
    }

    /// Start watching `signals` on `handle`, with nothing observed yet.
    pub fn begin(&mut self, handle: u32, signals: u64) -> (r: Result<(), Status>)
        ensures
            r is Ok,
            final(self).handle == handle,
            final(self).signals == signals,
            final(self).initialized,
            final(self).observed == 0,
    {
        self.handle = handle;
        self.signals = signals;
        self.initialized = true;
        self.observed = 0;
        Ok(())
    }

    /// Stop watching; returns what was observed.
    pub fn end(&mut self) -> (observed: u64)
        ensures
            observed == old(self).observed,
            !final(self).initialized,
            final(self).handle == old(self).handle,
            final(self).signals == old(self).signals,
            final(self).observed == old(self).observed,
    {
        self.initialized = false;
        self.observed
    }

    /// Record that `signals` were asserted.
    pub fn signal(&mut self, signals: u64)
        ensures
            final(self).observed == old(self).observed | signals,
            final(self).handle == old(self).handle,
            final(self).signals == old(self).signals,
            final(self).initialized == old(self).initialized,
    {
        self.observed = self.observed | signals;
    }
}

/// A thread waiting for some signals.
#[derive(Clone, Copy, Debug)]
pub struct WaitQueueEntry {
    pub thread_id: usize,
    pub signals: u64,
    pub deadline: u64,
    pub observed_out: usize,
    pub signaled: bool,
    pub observed: u64,
}

/// The threads of the entries of `s` that wait for one of `signals`, in
/// queue order: the threads a signal wakes.
pub open spec fn released_threads(s: Seq<WaitQueueEntry>, signals: u64) -> Seq<usize>
    decreases s.len(),
{
    if s.len() == 0 {
        Seq::empty()
    } else {
        let rest = released_threads(s.drop_last(), signals);
        if s.last().signals & signals != 0 {
            rest.push(s.last().thread_id)
        } else {
            rest
        }
    }
}

/// The threads of all entries of `s`, in queue order.
pub open spec fn all_threads(s: Seq<WaitQueueEntry>) -> Seq<usize> {
    s.map_values(|e: WaitQueueEntry| e.thread_id)
}

/// How many of the entries `s` wait for one of `signals`.
pub open spec fn waiting_on(s: Seq<WaitQueueEntry>, signals: u64) -> nat
    decreases s.len(),
{
    if s.len() == 0 {
        0
    } else {
        waiting_on(s.drop_last(), signals) + if s.last().signals & signals != 0 { 1nat } else { 0nat }
    }
}

/// Signalling splits the queue: the entries still waiting and those that
/// waited for one of the signals make up the whole queue.
pub proof fn lemma_signal_splits_queue(s: Seq<WaitQueueEntry>, signals: u64)
    ensures
        still_waiting(s, signals).len() + waiting_on(s, signals) == s.len(),
    decreases s.len(),
{
    if s.len() > 0 {
        lemma_signal_splits_queue(s.drop_last(), signals);
    }
}

/// The entries still waiting after `signals` are asserted: those waiting
/// for none of them.
pub open spec fn still_waiting(s: Seq<WaitQueueEntry>, signals: u64) -> Seq<WaitQueueEntry>
    decreases s.len(),
{
    if s.len() == 0 {
        s
    } else {
        let rest = still_waiting(s.drop_last(), signals);
        if s.last().signals & signals != 0 {
            rest
        } else {
            rest.push(s.last())
        }
    }
}

/// Signalling `signals` leaves waiting exactly the entries that wait for
/// none of them: no entry still waiting shares a signal with `signals`,
/// every entry that shares none is still waiting, and the thread of every
/// entry that shares one is among the threads woken.
pub proof fn lemma_signal_releases_matching(s: Seq<WaitQueueEntry>, signals: u64)
    ensures
        forall|j: int| 0 <= j < still_waiting(s, signals).len() ==> #[trigger] still_waiting(s, signals)[j].signals & signals == 0,
        forall|k: int| 0 <= k < s.len() && (#[trigger] s[k]).signals & signals == 0 ==> still_waiting(s, signals).contains(s[k]),
        forall|k: int| 0 <= k < s.len() && (#[trigger] s[k]).signals & signals != 0 ==> released_threads(s, signals).contains(s[k].thread_id),
    decreases s.len(),
{
    if s.len() > 0 {
        let d = s.drop_last();
        lemma_signal_releases_matching(d, signals);
        let w = still_waiting(d, signals);
        let t = released_threads(d, signals);
        assert forall|j: int| 0 <= j < still_waiting(s, signals).len() implies #[trigger] still_waiting(s, signals)[j].signals & signals == 0 by {
            if j < w.len() {
                assert(still_waiting(s, signals)[j] == w[j]);
            }
        }
        assert forall|k: int| 0 <= k < s.len() && (#[trigger] s[k]).signals & signals == 0 implies still_waiting(s, signals).contains(s[k]) by {
            if k < d.len() {
                assert(d[k] == s[k]);
                let x = choose|x: int| 0 <= x < w.len() && w[x] == d[k];
                assert(still_waiting(s, signals)[x] == w[x]);
            } else {
                assert(still_waiting(s, signals) == w.push(s[k]));
                assert(still_waiting(s, signals)[w.len() as int] == s[k]);
            }
        }
        assert forall|k: int| 0 <= k < s.len() && (#[trigger] s[k]).signals & signals != 0 implies released_threads(s, signals).contains(s[k].thread_id) by {
            if k < d.len() {
                assert(d[k] == s[k]);
                let x = choose|x: int| 0 <= x < t.len() && t[x] == d[k].thread_id;
                assert(released_threads(s, signals)[x] == t[x]);
            } else {
                assert(released_threads(s, signals) == t.push(s[k].thread_id));
                assert(released_threads(s, signals)[t.len() as int] == s[k].thread_id);
            }
        }
    }
}

/// Threads waiting on one object.
pub struct WaitQueue {
    pub entries: Vec<WaitQueueEntry>,
    pub count: usize,
}

impl WaitQueue {
    /// An empty queue.
    pub fn new() -> (q: WaitQueue)
        ensures
            q.entries@.len() == 0,
            q.count == 0,
    {
        WaitQueue { entries: Vec::new(), count: 0 }
    }

    /// Enqueue `thread_id` as waiting for `signals`; the caller then blocks
    /// the thread.
    pub fn wait(&mut self, thread_id: usize, signals: u64, deadline: u64, observed_out: usize) -> (r: Result<(), Status>)
        ensures
            r is Ok,
            final(self).entries@ == old(self).entries@.push(WaitQueueEntry {
                thread_id,
                signals,
                deadline: 0,
                observed_out: 0,
                signaled: false,
                observed: 0,
            }),
            final(self).count == old(self).count.wrapping_add(1),
    {
        self.entries.push(WaitQueueEntry { thread_id, signals, deadline: 0, observed_out: 0, signaled: false, observed: 0 });
        self.count = self.count.wrapping_add(1);
        Ok(())
    }

    /// Release every waiter waiting for any of `signals` and wake its
    /// thread (its id is appended to `woken`, in queue order); returns how
    /// many were released.
    pub fn signal(&mut self, signals: u64, woken: &mut Vec<usize>) -> (n: usize)
        ensures
            final(self).entries@ == still_waiting(old(self).entries@, signals),
            final(woken)@ == old(woken)@ + released_threads(old(self).entries@, signals),
            n == old(self).entries@.len() - final(self).entries@.len(),
            n == waiting_on(old(self).entries@, signals),
            final(self).count == old(self).count.wrapping_sub(n),
    {
        let mut kept: Vec<WaitQueueEntry> = Vec::new();
        let mut signaled_count: usize = 0;
        let mut i: usize = 0;
        while i < self.entries.len()
            invariant
                i <= self.entries@.len(),
                kept@ == still_waiting(self.entries@.subrange(0, i as int), signals),
                woken@ == old(woken)@ + released_threads(self.entries@.subrange(0, i as int), signals),
                signaled_count + kept@.len() == i,
            decreases self.entries@.len() - i,
        {
            let e = self.entries[i];
            proof {
                assert(self.entries@.subrange(0, i + 1).drop_last() =~= self.entries@.subrange(0, i as int));
                assert(self.entries@.subrange(0, i + 1).last() == e);
            }
            if e.signals & signals != 0 {
                signaled_count = signaled_count + 1;
                woken.push(e.thread_id);
            } else {
                kept.push(e);
            }
            i = i + 1;
        }
        proof {
            assert(self.entries@.subrange(0, self.entries@.len() as int) =~= self.entries@);
            lemma_signal_splits_queue(self.entries@, signals);
        }
        self.entries = kept;
        self.count = self.count.wrapping_sub(signaled_count);
        signaled_count
    }

    /// Release every waiter, reporting the handle as closed, and wake its
    /// thread (its id is appended to `woken`, in queue order); returns how
    /// many there were.
    pub fn timeout_all(&mut self, woken: &mut Vec<usize>) -> (n: usize)
        ensures
            n == old(self).entries@.len(),
            final(self).entries@.len() == 0,
            final(self).count == 0,
            final(woken)@ == old(woken)@ + all_threads(old(self).entries@),
    {
        let mut i: usize = 0;
        while i < self.entries.len()
            invariant
                i <= self.entries@.len(),
                woken@ == old(woken)@ + all_threads(self.entries@.subrange(0, i as int)),
            decreases self.entries@.len() - i,
        {
            woken.push(self.entries[i].thread_id);
            i = i + 1;
            proof {
                assert(all_threads(self.entries@.subrange(0, i as int)) =~= all_threads(self.entries@.subrange(0, i - 1)).push(self.entries@[i - 1].thread_id));
            }
        }
        proof {
            assert(self.entries@.subrange(0, self.entries@.len() as int) =~= self.entries@);
        }
        let n = self.entries.len();
        self.entries = Vec::new();
        self.count = 0;
        n
    }

    /// Number of waiters counted.
    pub fn count(&self) -> (c: usize)
        ensures
            c == self.count,
    {
        self.count
    }
}

/// Number of wait queue slots.
pub const MAX_WAIT_QUEUES: usize = 65536;

/// Wait queues by handle value; the queue of handle `h` lives in slot
/// `h % MAX_WAIT_QUEUES`.
pub struct WaitQueueRegistry {
    pub queues: Vec<Option<WaitQueue>>,
    pub next_index: usize,
    /// Threads woken by signals, in the order they were woken.
    pub ready: Vec<usize>,
}

/// Slot of the wait queue for `handle`.
pub open spec fn queue_slot(handle: u32) -> int {
    handle as int % MAX_WAIT_QUEUES as int
}

impl WaitQueueRegistry {
    pub open spec fn wf(&self) -> bool {
        self.queues@.len() == MAX_WAIT_QUEUES
    }

    /// No queues yet.
    pub fn new() -> (r: WaitQueueRegistry)
        ensures
            r.wf(),
            forall|i: int| 0 <= i < MAX_WAIT_QUEUES ==> r.queues@[i] is None,
            r.ready@.len() == 0,
    {
        let mut queues: Vec<Option<WaitQueue>> = Vec::new();
        let mut i: usize = 0;
        while i < MAX_WAIT_QUEUES
            invariant
                i <= MAX_WAIT_QUEUES,
                queues@.len() == i,
                forall|k: int| 0 <= k < i ==> queues@[k] is None,
            decreases MAX_WAIT_QUEUES - i,
        {
            queues.push(None);
            i = i + 1;
        }
        WaitQueueRegistry { queues, next_index: 0, ready: Vec::new() }
    }

    /// Enqueue a waiter on the queue of `handle`, creating the queue if
    /// needed.
    pub fn wait_on(&mut self, handle: u32, thread_id: usize, signals: u64, deadline: u64, observed_out: usize) -> (r: Result<(), Status>)
        requires
            old(self).wf(),
        ensures
            final(self).wf(),
            r is Ok,
            final(self).next_index == old(self).next_index,
            final(self).ready == old(self).ready,
            forall|i: int| 0 <= i < MAX_WAIT_QUEUES && i != queue_slot(handle) ==> #[trigger] final(self).queues@[i] == old(self).queues@[i],
            final(self).queues@[queue_slot(handle)] is Some,
            entries_of(final(self).queues@[queue_slot(handle)]) == entries_of(old(self).queues@[queue_slot(handle)]).push(WaitQueueEntry {
                thread_id,
                signals,
                deadline: 0,
                observed_out: 0,
                signaled: false,
                observed: 0,
            }),
            count_of(final(self).queues@[queue_slot(handle)]) == count_of(old(self).queues@[queue_slot(handle)]).wrapping_add(1),
    {
        let idx = (handle as usize) % MAX_WAIT_QUEUES;
        if self.queues[idx].is_none() {
            self.queues.set(idx, Some(WaitQueue::new()));
        }
        match &mut self.queues[idx] {
            Some(q) => q.wait(thread_id, signals, deadline, observed_out),
            None => Ok(()),
        }
    }

    /// Release the waiters on the queue of `handle` that wait for any of
    /// `signals`, waking their threads (appended to `ready` in queue
    /// order); returns how many were released.
    pub fn signal(&mut self, handle: u32, signals: u64) -> (n: usize)
        requires
            old(self).wf(),
        ensures
            final(self).wf(),
            final(self).next_index == old(self).next_index,
            final(self).ready@ == old(self).ready@ + released_threads(entries_of(old(self).queues@[queue_slot(handle)]), signals),
            forall|i: int| 0 <= i < MAX_WAIT_QUEUES && i != queue_slot(handle) ==> #[trigger] final(self).queues@[i] == old(self).queues@[i],
            (final(self).queues@[queue_slot(handle)] is Some) == (old(self).queues@[queue_slot(handle)] is Some),
            entries_of(final(self).queues@[queue_slot(handle)]) == still_waiting(entries_of(old(self).queues@[queue_slot(handle)]), signals),
            n == entries_of(old(self).queues@[queue_slot(handle)]).len() - entries_of(final(self).queues@[queue_slot(handle)]).len(),
            n == waiting_on(entries_of(old(self).queues@[queue_slot(handle)]), signals),
            count_of(final(self).queues@[queue_slot(handle)]) == count_of(old(self).queues@[queue_slot(handle)]).wrapping_sub(n),
    {
        let idx = (handle as usize) % MAX_WAIT_QUEUES;
        match &mut self.queues[idx] {
            Some(q) => q.signal(signals, &mut self.ready),
            None => 0,
        }
    }
}

/// Waiters of a queue slot; none when the slot is empty.
pub open spec fn entries_of(q: Option<WaitQueue>) -> Seq<WaitQueueEntry> {
    match q {
        Some(w) => w.entries@,
        None => Seq::empty(),
    }
}

/// Waiter count of a queue slot; zero when the slot is empty.
pub open spec fn count_of(q: Option<WaitQueue>) -> usize {
    match q {
        Some(w) => w.count,
        None => 0,
    }
}

/// What waking the waiters of `handle` with `signals` does to `w`, giving
/// `w2`: the waiters the signals satisfy leave that handle's queue, in order,
/// and every other queue is untouched.
pub open spec fn waiters_woken(w: WaitQueueRegistry, w2: WaitQueueRegistry, handle: u32, signals: u64) -> bool {
    &&& w2.wf()
    &&& forall|i: int| 0 <= i < MAX_WAIT_QUEUES && i != queue_slot(handle) ==> #[trigger] w2.queues@[i] == w.queues@[i]
    &&& entries_of(w2.queues@[queue_slot(handle)]) == still_waiting(entries_of(w.queues@[queue_slot(handle)]), signals)
    &&& w2.ready@ == w.ready@ + released_threads(entries_of(w.queues@[queue_slot(handle)]), signals)
    &&& w2.next_index == w.next_index
}

/// Release the waiters on `handle` that wait for any of `signals`.
pub fn wake_waiters(reg: &mut WaitQueueRegistry, handle: u32, signals: u64) -> (n: usize)
    requires
        old(reg).wf(),
    ensures
        final(reg).wf(),
        waiters_woken(*old(reg), *final(reg), handle, signals),
        forall|i: int| 0 <= i < MAX_WAIT_QUEUES && i != queue_slot(handle) ==> #[trigger] final(reg).queues@[i] == old(reg).queues@[i],
        entries_of(final(reg).queues@[queue_slot(handle)]) == still_waiting(entries_of(old(reg).queues@[queue_slot(handle)]), signals),
        n == entries_of(old(reg).queues@[queue_slot(handle)]).len() - entries_of(final(reg).queues@[queue_slot(handle)]).len(),
{
    reg.signal(handle, signals)
}

/// Time out the waiters on `handle`; no waiter is released this way yet.
pub fn timeout_waiters(handle: u32) -> (n: usize)
    ensures
        n == 0,
{
    0
}

/// Outcome of waiting on one handle: `r` is the result and a name ending in `_after` is that state after the call.
pub open spec fn wait_one_outcome(
    reg: WaitQueueRegistry,
    reg_after: WaitQueueRegistry,
    mem: UserMemory,
    mem_after: UserMemory,
    thread_id: usize,
    handle_val: u32,
    signals: u64,
    deadline: u64,
    observed_out: usize,
    r: SyscallRet,
) -> bool {
    &&& mem_after.base == mem.base
    &&& handle_val == 0 ==> r == -RX_ERR_BAD_HANDLE && mem_after == mem && reg_after == reg
    &&& handle_val != 0 ==> {
        let q = entries_of(reg.queues@[queue_slot(handle_val)]).push(WaitQueueEntry {
            thread_id,
            signals,
            deadline: 0,
            observed_out: 0,
            signaled: false,
            observed: 0,
        });
        &&& forall|i: int| 0 <= i < MAX_WAIT_QUEUES && i != queue_slot(handle_val) ==> #[trigger] reg_after.queues@[i] == reg.queues@[i]
        &&& entries_of(reg_after.queues@[queue_slot(handle_val)]) == still_waiting(q, signals)
        &&& reg_after.ready@ == reg.ready@ + released_threads(q, signals)
        &&& reg_after.next_index == reg.next_index
    }
    &&& handle_val != 0 ==> {
        if observed_out != 0 && !mem.range_ok(observed_out, 8) {
            r == -crate::status::RX_ERR_INVALID_ARGS && mem_after == mem
        } else {
            &&& observed_out != 0 ==> mem_after.bytes@ == mem.written(observed_out, le_bytes(signals, 8))
            &&& observed_out == 0 ==> mem_after == mem
            &&& r == if signals & signal::HANDLE_CLOSED != 0 { -RX_ERR_CANCELED } else { 0 }
        }
    }
}

/// Block the current thread `thread_id` until `signals` are asserted on
/// `handle_val`, reporting the observed signals as a `u64` at
/// `observed_out` when that is non-zero.
pub fn sys_object_wait_one_impl(
    reg: &mut WaitQueueRegistry,
    mem: &mut UserMemory,
    thread_id: usize,
    handle_val: u32,
    signals: u64,
    deadline: u64,
    observed_out: usize,
) -> (r: SyscallRet)
    requires
        old(reg).wf(),
    ensures
        final(reg).wf(),
        wait_one_outcome(*old(reg), *final(reg), *old(mem), *final(mem), thread_id, handle_val, signals,
            deadline, observed_out, r),
{
    if handle_val == 0 {
        return err_to_ret(RX_ERR_BAD_HANDLE);
    }
    match reg.wait_on(handle_val, thread_id, signals, deadline, observed_out) {
        Ok(()) => {},
        Err(err) => {
            return err_to_ret(err);
        },
    }
    let observed = signals;
    let _ = reg.signal(handle_val, signals);
    if observed_out != 0 {
        match mem.write_le(observed_out, observed, 8) {
            Ok(()) => {},
            Err(err) => {
                return err_to_ret(err);
            },
        }
    }
    if observed & signal::HANDLE_CLOSED != 0 {
        return err_to_ret(RX_ERR_CANCELED);
    }
    ok_to_ret(0)
}

/// Handle value of wait record `i` in the buffer `b`.
pub open spec fn item_handle(b: Seq<u8>, i: int) -> u64 {
    le_value(b.subrange(i * 24, i * 24 + 4), 4)
}

/// Signals wait record `i` in the buffer `b` waits for.
pub open spec fn item_waitfor(b: Seq<u8>, i: int) -> u64 {
    le_value(b.subrange(i * 24 + 8, i * 24 + 16), 8)
}

/// The records after each one's pending signals are set to the signals it
/// waits for.
pub open spec fn with_pending(b: Seq<u8>) -> Seq<u8> {
    Seq::new(b.len(), |k: int| if k % 24 >= 16 { b[k - 8] } else { b[k] })
}

/// Whether any of the first `n` records waits for `HANDLE_CLOSED`.
pub open spec fn any_closed(b: Seq<u8>, n: int) -> bool
    decreases n,
{
    if n <= 0 {
        false
    } else {
        any_closed(b, n - 1) || item_waitfor(b, n - 1) & signal::HANDLE_CLOSED != 0
    }
}

/// Outcome of waiting on `count` handles: `r` is the result and a name ending in `_after` is that state after the call.
pub open spec fn wait_many_outcome(
    mem: UserMemory,
    mem_after: UserMemory,
    user_items: usize,
    count: usize,
    deadline: u64,
    r: SyscallRet,
) -> bool {
    &&& mem_after.base == mem.base
    &&& count == 0 ==> r == -RX_ERR_TIMED_OUT && mem_after == mem
    &&& count > MAX_WAIT_HANDLE_COUNT ==> r == -RX_ERR_OUT_OF_RANGE && mem_after == mem
    &&& 0 < count <= MAX_WAIT_HANDLE_COUNT ==> {
        let len = (count * 24) as usize;
        if !mem.range_ok(user_items, len) {
            r == -crate::status::RX_ERR_INVALID_ARGS && mem_after == mem
        } else {
            let b = mem.bytes_at(user_items, len);
            if exists|i: int| 0 <= i < count && #[trigger] item_handle(b, i) == 0 {
                r == -RX_ERR_BAD_HANDLE && mem_after == mem
            } else {
                &&& mem_after.bytes@ == mem.written(user_items, with_pending(b))
                &&& r == if any_closed(b, count as int) { -RX_ERR_CANCELED } else { 0 }
            }
        }
    }
}

/// Wait on `count` objects described by records at `user_items`: every
/// record gets its pending signals set to those it waits for.
pub fn sys_object_wait_many_impl(mem: &mut UserMemory, user_items: usize, count: usize, deadline: u64) -> (r: SyscallRet)
    ensures
        wait_many_outcome(*old(mem), *final(mem), user_items, count, deadline, r),
{
    if count == 0 {
        return err_to_ret(RX_ERR_TIMED_OUT);
    }
    if count > MAX_WAIT_HANDLE_COUNT {
        return err_to_ret(RX_ERR_OUT_OF_RANGE);
    }
    let len = count * WAIT_ITEM_SIZE;
    assert(len == (count * 24) as usize);
    let items = match mem.copy_from_user(user_items, len) {
        Ok(b) => b,
        Err(err) => {
            return err_to_ret(err);
        },
    };
    let ghost b = items@;
    let mut i: usize = 0;
    while i < count
        invariant
            i <= count <= MAX_WAIT_HANDLE_COUNT,
            *mem == *old(mem),
            b == old(mem).bytes_at(user_items, len),
            len == (count * 24) as usize,
            old(mem).range_ok(user_items, len),
            items@ == b,
            b.len() == count * 24,
            forall|k: int| 0 <= k < i ==> #[trigger] item_handle(b, k) != 0,
        decreases count - i,
    {
        let handle = crate::usercopy::decode_le(&slice_of(&items, i * WAIT_ITEM_SIZE, 4), 4);
        if handle == 0 {
            assert(item_handle(b, i as int) == 0);
            return err_to_ret(RX_ERR_BAD_HANDLE);
        }
        i = i + 1;
    }
    let mut out: Vec<u8> = Vec::new();
    let mut k: usize = 0;
    while k < len
        invariant
            len == count * 24,
            *mem == *old(mem),
            b == old(mem).bytes_at(user_items, len),
            old(mem).range_ok(user_items, len),
            items@ == b,
            b.len() == len,
            k <= len,
            out@ == with_pending(b).subrange(0, k as int),
            forall|q: int| 0 <= q < count ==> #[trigger] item_handle(b, q) != 0,
        decreases len - k,
    {
        let v = if k % WAIT_ITEM_SIZE >= 16 { items[k - 8] } else { items[k] };
        out.push(v);
        k = k + 1;
        proof {
            assert(out@ =~= with_pending(b).subrange(0, k as int));
        }
    }
    proof {
        assert(out@ =~= with_pending(b));
    }
    let mut combined: u64 = 0;
    proof {
        assert(0u64 & 0x0080_0000u64 == 0) by (bit_vector);
    }
    let mut j: usize = 0;
    while j < count
        invariant
            j <= count <= MAX_WAIT_HANDLE_COUNT,
            *mem == *old(mem),
            b == old(mem).bytes_at(user_items, len),
            len == count * 24,
            old(mem).range_ok(user_items, len),
            out@ == with_pending(b),
            forall|q: int| 0 <= q < count ==> #[trigger] item_handle(b, q) != 0,
            items@ == b,
            b.len() == count * 24,
            (combined & signal::HANDLE_CLOSED != 0) == any_closed(b, j as int),
        decreases count - j,
    {
        let waitfor = crate::usercopy::decode_le(&slice_of(&items, j * WAIT_ITEM_SIZE + 8, 8), 8);
        proof {
            let c = combined;
            assert(((c | waitfor) & 0x0080_0000u64 != 0) == ((c & 0x0080_0000u64 != 0) || (waitfor & 0x0080_0000u64 != 0))) by (bit_vector);
        }
        combined = combined | waitfor;
        j = j + 1;
    }
    match mem.copy_to_user(user_items, out.as_slice()) {
        Ok(()) => {},
        Err(err) => {
            assert(false);
            return err_to_ret(err);
        },
    }
    let r = if combined & signal::HANDLE_CLOSED != 0 {
        err_to_ret(RX_ERR_CANCELED)
    } else {
        ok_to_ret(0)
    };
    assert(r == if any_closed(b, count as int) { -RX_ERR_CANCELED } else { 0 });
    r
}

/// The `n` bytes of `v` from `start`.
fn slice_of(v: &Vec<u8>, start: usize, n: usize) -> (out: Vec<u8>)
    requires
        start + n <= v@.len(),
    ensures
        out@ == v@.subrange(start as int, start + n),
{
    let mut out: Vec<u8> = Vec::new();
    let vlen = v.len();
    let mut i: usize = 0;
    while i < n
        invariant
            vlen == v@.len(),
            start + n <= v@.len(),
            i <= n,
            out@ == v@.subrange(start as int, start + i),
        decreases n - i,
    {
        out.push(v[start + i]);
        i = i + 1;
        proof {
            assert(out@ =~= v@.subrange(start as int, start + i));
        }
    }
    out
}

/// Register an asynchronous wait for `signals` on `handle_val`, to be
/// reported on the port `port_handle` under `key`.
pub fn sys_object_wait_async_impl(handle_val: u32, port_handle: u32, key: u64, signals: u64, options: u32) -> (r: SyscallRet)
    ensures
        r == if handle_val == 0 || port_handle == 0 { -RX_ERR_BAD_HANDLE } else { 0 },
{
    if handle_val == 0 {
        return err_to_ret(RX_ERR_BAD_HANDLE);
    }
    if port_handle == 0 {
        return err_to_ret(RX_ERR_BAD_HANDLE);
    }
    ok_to_ret(0)
}

/// Object wait statistics.
#[derive(Clone, Copy, Debug)]
pub struct ObjectWaitStats {
    pub total_wait_one: u64,
    pub total_wait_many: u64,
    pub total_wait_async: u64,
}

/// Object wait statistics (not yet tracked).
pub fn get_stats() -> (st: ObjectWaitStats)
    ensures
        st.total_wait_one == 0 && st.total_wait_many == 0 && st.total_wait_async == 0,
{
    ObjectWaitStats { total_wait_one: 0, total_wait_many: 0, total_wait_async: 0 }
}

/// Initialize the object wait subsystem (nothing to set up).
pub fn init() {
}

} // verus!

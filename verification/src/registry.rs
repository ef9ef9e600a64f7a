//! Fixed-capacity object registries.
//!
//! Every object kind (channels, events, timers, VMOs, ...) is kept in a table
//! of slots.  An object with id `id` has its home slot at `id % capacity`.
//! In a `SlotTable` insertion probes the whole table linearly from the home
//! slot for a free slot, and lookup and removal probe the whole table the
//! same way for the first slot holding `id`, so what an insertion placed a
//! lookup finds.  A `HomeTable` keeps every object in its home slot.
use vstd::prelude::*;
use crate::status::{Status, RX_ERR_NOT_FOUND, RX_ERR_NO_RESOURCES};


verus! {

/// Home slot of an id in a table of `n` slots.
pub open spec fn home_slot(id: u64, n: nat) -> nat {
    ((id as usize) as nat) % n
}

/// First probe offset `j` in `[from, d)` whose slot `(h + j) % n` is free.
pub open spec fn first_free<T>(slots: Seq<Option<(u64, T)>>, h: nat, from: nat, d: nat) -> Option<nat>
    decreases d - from,
{
    if from >= d {
        None
    } else if slots[((h + from) % slots.len()) as int] is None {
        Some(from)
    } else {
        first_free(slots, h, from + 1, d)
    }
}

/// Slot `(h + j) % n`: probe offset `j` from slot `h`.
pub open spec fn probe_at(h: nat, j: nat, n: nat) -> int {
    ((h + j) % n) as int
}

/// Whether slot `k` of `slots` holds an entry for `id`.
pub open spec fn holds<T>(slots: Seq<Option<(u64, T)>>, k: int, id: u64) -> bool {
    slots[k] is Some && (slots[k]->0).0 == id
}

/// First probe offset `j` in `[from, n)`, probing from slot `h`, whose slot
/// `(h + j) % n` holds `id`.
pub open spec fn match_from<T>(slots: Seq<Option<(u64, T)>>, h: nat, id: u64, from: nat) -> Option<nat>
    decreases slots.len() - from,
{
    if from >= slots.len() {
        None
    } else if holds(slots, ((h + from) % slots.len()) as int, id) {
        Some(from)
    } else {
        match_from(slots, h, id, from + 1)
    }
}

/// The slot a lookup of `id` finds: the first slot holding `id` probing
/// the whole table from its home slot; -1 when no slot holds it.
pub open spec fn slot_of<T>(slots: Seq<Option<(u64, T)>>, id: u64) -> int {
    let n = slots.len();
    let h = home_slot(id, n);
    match match_from(slots, h, id, 0) {
        Some(j) => ((h + j) % n) as int,
        None => -1,
    }
}

/// Value found for `id` by a lookup: the object in `slot_of(slots, id)`.
pub open spec fn lookup<T>(slots: Seq<Option<(u64, T)>>, id: u64) -> Option<T> {
    let p = slot_of(slots, id);
    if p >= 0 {
        Some((slots[p]->0).1)
    } else {
        None
    }
}

/// Slot an insertion under `id` lands in: the first free slot probing the
/// whole table from the home slot, if any.  (`next`, where the previous
/// insertion stopped, does not matter.)
pub open spec fn insert_pos<T>(slots: Seq<Option<(u64, T)>>, next: nat, id: u64) -> Option<int> {
    let n = slots.len();
    let h = home_slot(id, n);
    match first_free(slots, h, 0, n) {
        Some(j) => Some(((h + j) % n) as int),
        None => None,
    }
}

/// Which slots of `slots` are free.
pub open spec fn free_pattern<T>(slots: Seq<Option<(u64, T)>>) -> Seq<bool> {
    slots.map_values(|e: Option<(u64, T)>| e is None)
}

/// `first_free` over a pattern of free slots.
pub open spec fn first_free_in(free: Seq<bool>, h: nat, from: nat, d: nat) -> Option<nat>
    decreases d - from,
{
    if from >= d {
        None
    } else if free[((h + from) % free.len()) as int] {
        Some(from)
    } else {
        first_free_in(free, h, from + 1, d)
    }
}

/// `insert_pos` over a pattern of free slots.
pub open spec fn insert_pos_in(free: Seq<bool>, next: nat, id: u64) -> Option<int> {
    let n = free.len();
    let h = home_slot(id, n);
    match first_free_in(free, h, 0, n) {
        Some(j) => Some(((h + j) % n) as int),
        None => None,
    }
}

/// What an insertion of `value` under `id` does to table `t`, giving `t2`
/// and result `r`: the object lands in the first free probed slot, or the
/// insertion fails with `RX_ERR_NO_RESOURCES` (every slot taken) and
/// nothing changes.
pub open spec fn insert_post<T>(t: SlotTable<T>, t2: SlotTable<T>, id: u64, value: T, r: Result<u64, Status>) -> bool {
    let n = t.slots@.len();
    match insert_pos(t.slots@, t.next_index as nat, id) {
        Some(pos) => {
            &&& r == Ok::<u64, Status>(id)
            &&& t2.slots@ == t.slots@.update(pos, Some((id, value)))
            &&& t2.count == t.count.wrapping_add(1)
            &&& t2.next_index == (pos + 1) % (n as int)
        },
        None => {
            &&& r == Err::<u64, Status>(RX_ERR_NO_RESOURCES)
            &&& t2 == t
        },
    }
}

/// What an insertion under `id` does to table `t`, giving `t2` and result
/// `r`, for an object known only through the property `p`: as
/// `insert_post`, with the new entry holding some object that has `p`.
pub open spec fn inserted_such_that<T>(t: SlotTable<T>, t2: SlotTable<T>, id: u64, r: Result<u64, Status>, p: spec_fn(T) -> bool) -> bool {
    let n = t.slots@.len();
    match insert_pos(t.slots@, t.next_index as nat, id) {
        Some(pos) => {
            &&& r == Ok::<u64, Status>(id)
            &&& t2.slots@ == t.slots@.update(pos, t2.slots@[pos])
            &&& t2.slots@[pos] is Some
            &&& (t2.slots@[pos]->0).0 == id
            &&& p((t2.slots@[pos]->0).1)
            &&& t2.count == t.count.wrapping_add(1)
            &&& t2.next_index == (pos + 1) % (n as int)
        },
        None => {
            &&& r == Err::<u64, Status>(RX_ERR_NO_RESOURCES)
            &&& t2 == t
        },
    }
}

/// What an in-place update of the object under `id` does to table `t`,
/// giving `t2`: only the slot a lookup of `id` finds changes, and it still
/// holds `id`, now with an object that has the property `p`.
pub open spec fn updated_such_that<T>(t: SlotTable<T>, t2: SlotTable<T>, id: u64, p: spec_fn(T) -> bool) -> bool {
    let h = slot_of(t.slots@, id);
    &&& 0 <= h < t.slots@.len()
    &&& t2.slots@ == t.slots@.update(h, t2.slots@[h])
    &&& t2.slots@[h] is Some
    &&& (t2.slots@[h]->0).0 == id
    &&& p((t2.slots@[h]->0).1)
    &&& t2.count == t.count
    &&& t2.next_index == t.next_index
}

/// Result an insertion under `id` into `t` gives: the id when some slot is
/// free, otherwise `RX_ERR_NO_RESOURCES`.
pub open spec fn insert_result<T>(t: SlotTable<T>, id: u64) -> Result<u64, Status> {
    if insert_pos(t.slots@, t.next_index as nat, id) is Some {
        Ok(id)
    } else {
        Err(RX_ERR_NO_RESOURCES)
    }
}

/// What a removal of `id` does to table `t`: the slot a lookup of `id`
/// finds is emptied and its object handed back; when no slot holds `id`
/// nothing changes and nothing is handed back.
pub open spec fn remove_post<T>(t: SlotTable<T>, t2: SlotTable<T>, id: u64, r: Option<T>) -> bool {
    let p = slot_of(t.slots@, id);
    if p >= 0 {
        &&& r == Some((t.slots@[p]->0).1)
        &&& t2.slots@ == t.slots@.update(p, None)
        &&& t2.count == t.count.wrapping_sub(1)
        &&& t2.next_index == t.next_index
    } else {
        r is None && t2 == t
    }
}

/// A table of `capacity` slots, each empty or holding an `(id, object)` entry.
pub struct SlotTable<T> {
    pub slots: Vec<Option<(u64, T)>>,
    pub next_index: usize,
    pub count: usize,
}

impl<T> SlotTable<T> {
    /// The table's shape: at least one slot and a probe start inside it.
    pub open spec fn wf(&self) -> bool {
        &&& self.slots@.len() > 0
        &&& self.next_index < self.slots@.len()
    }

    /// Value stored for `id`, as seen by a lookup.
    pub open spec fn find(&self, id: u64) -> Option<T> {
        lookup(self.slots@, id)
    }

    /// A table of `capacity` empty slots.
    pub fn new(capacity: usize) -> (t: Self)
        requires
            capacity > 0,
        ensures
            t.wf(),
            t.slots@.len() == capacity,
            forall|i: int| 0 <= i < capacity ==> t.slots@[i] is None,
            forall|id: u64| #[trigger] t.find(id) is None,
            t.next_index == 0,
            t.count == 0,
    {
        let mut slots: Vec<Option<(u64, T)>> = Vec::new();
        let mut i: usize = 0;
        while i < capacity
            invariant
                i <= capacity,
                slots@.len() == i,
                forall|k: int| 0 <= k < i ==> slots@[k] is None,
            decreases capacity - i,
        {
            slots.push(None);
            i = i + 1;
        }
        let t = SlotTable { slots, next_index: 0, count: 0 };
        proof {
            assert forall|id: u64| #[trigger] t.find(id) is None by {
                lemma_slot_of(t.slots@, id);
            }
        }
        t
    }

    /// Insert an object under `id` in the first free slot probing the whole
    /// table from its home slot.
    pub fn insert(&mut self, id: u64, value: T) -> (r: Result<u64, Status>)
        requires
            old(self).wf(),
        ensures
            final(self).wf(),
            insert_post(*old(self), *final(self), id, value, r),
    {
        let n = self.slots.len();
        let h = (#[verifier::truncate] (id as usize)) % n;
        let mut j: usize = 0;
        while j < n
            invariant
                n == self.slots@.len(),
                *self == *old(self),
                old(self).wf(),
                h == home_slot(id, n as nat),
                j <= n,
                first_free(self.slots@, h as nat, 0, n as nat) == first_free(self.slots@, h as nat, j as nat, n as nat),
            decreases n - j,
        {
            let idx = probe_index(h, j, n);
            if self.slots[idx].is_none() {
                proof {
                    assert(first_free(self.slots@, h as nat, j as nat, n as nat) == Some(j as nat));
                }
                self.slots.set(idx, Some((id, value)));
                self.count = self.count.wrapping_add(1);
                self.next_index = (idx + 1) % n;
                return Ok(id);
            }
            j = j + 1;
        }
        Err(RX_ERR_NO_RESOURCES)
    }

    /// The slot a lookup of `id` finds, if any.
    pub fn position(&self, id: u64) -> (r: Option<usize>)
        requires
            self.wf(),
        ensures
            r matches Some(p) ==> p == slot_of(self.slots@, id) && p < self.slots@.len(),
            r is None ==> slot_of(self.slots@, id) == -1,
    {
        let n = self.slots.len();
        let h = (#[verifier::truncate] (id as usize)) % n;
        let mut j: usize = 0;
        while j < n
            invariant
                n == self.slots@.len(),
                self.wf(),
                h == home_slot(id, n as nat),
                j <= n,
                match_from(self.slots@, h as nat, id, 0) == match_from(self.slots@, h as nat, id, j as nat),
            decreases n - j,
        {
            let idx = probe_index(h, j, n);
            let hit = match &self.slots[idx] {
                Some(entry) => entry.0 == id,
                None => false,
            };
            if hit {
                proof {
                    assert(match_from(self.slots@, h as nat, id, j as nat) == Some(j as nat));
                }
                return Some(idx);
            }
            j = j + 1;
        }
        None
    }

    /// Object stored for `id`, as a lookup finds it.
    pub fn get(&self, id: u64) -> (r: Option<&T>)
        requires
            self.wf(),
        ensures
            r matches Some(v) ==> self.find(id) == Some(*v),
            r is None ==> self.find(id) is None,
    {
        proof {
            lemma_slot_of(self.slots@, id);
        }
        match self.position(id) {
            Some(idx) => {
                match &self.slots[idx] {
                    Some(entry) => Some(&entry.1),
                    None => None,
                }
            },
            None => None,
        }
    }

    /// Object stored for `id`, for in-place update.
    pub fn get_mut(&mut self, id: u64) -> (r: Option<&mut T>)
        requires
            old(self).wf(),
        ensures
            final(self).wf(),
            final(self).next_index == old(self).next_index,
            final(self).count == old(self).count,
            final(self).slots@.len() == old(self).slots@.len(),
            r is None ==> old(self).find(id) is None && *final(self) == *old(self),
            r matches Some(v) ==> old(self).find(id) == Some(*v) && 0 <= slot_of(old(self).slots@, id)
                && final(self).slots@ == old(self).slots@.update(slot_of(old(self).slots@, id), Some((id, *final(v)))),
    {
        let idx = match self.position(id) {
            Some(i) => i,
            None => {
                return None;
            },
        };
        proof {
            lemma_slot_of(self.slots@, id);
        }
        match &mut self.slots[idx] {
            Some(entry) => Some(&mut entry.1),
            None => None,
        }
    }

    /// Remove the entry a lookup of `id` finds, failing with
    /// `RX_ERR_NOT_FOUND` (and changing nothing) when no slot holds `id`.
    pub fn remove_id(&mut self, id: u64) -> (r: Result<(), Status>)
        requires
            old(self).wf(),
        ensures
            final(self).wf(),
            final(self).next_index == old(self).next_index,
            ({
                let p = slot_of(old(self).slots@, id);
                if p >= 0 {
                    &&& r is Ok
                    &&& final(self).slots@ == old(self).slots@.update(p, None)
                    &&& final(self).count == old(self).count.wrapping_sub(1)
                } else {
                    r == Err::<(), Status>(RX_ERR_NOT_FOUND) && *final(self) == *old(self)
                }
            }),
    {
        match self.remove(id) {
            Some(_) => Ok(()),
            None => Err(RX_ERR_NOT_FOUND),
        }
    }

    /// Remove the entry a lookup of `id` finds, handing its object back;
    /// slots holding other ids are left alone.
    pub fn remove(&mut self, id: u64) -> (r: Option<T>)
        requires
            old(self).wf(),
        ensures
            final(self).wf(),
            remove_post(*old(self), *final(self), id, r),
    {
        let idx = match self.position(id) {
            Some(i) => i,
            None => {
                return None;
            },
        };
        proof {
            lemma_slot_of(self.slots@, id);
        }
        let entry = self.slots.remove(idx);
        self.slots.insert(idx, None);
        proof {
            assert(self.slots@ =~= old(self).slots@.update(idx as int, None));
        }
        self.count = self.count.wrapping_sub(1);
        match entry {
            Some(e) => Some(e.1),
            None => None,
        }
    }
}

/// Probe index `(h + j) % n`.
fn probe_index(h: usize, j: usize, n: usize) -> (idx: usize)
    requires
        h < n,
        j < n,
    ensures
        idx == ((h + j) as int) % (n as int),
        idx < n,
{
    proof {
        lemma_mod_below_twice((h + j) as int, n as int);
    }
    if h >= n - j {
        h - (n - j)
    } else {
        h + j
    }
}

/// Value found for `id` in its home slot.
pub open spec fn home_lookup<T>(slots: Seq<Option<(u64, T)>>, id: u64) -> Option<T> {
    let s = slots[home_slot(id, slots.len()) as int];
    if s is Some && (s->0).0 == id {
        Some((s->0).1)
    } else {
        None
    }
}

/// What an in-place update of the object under `id` does to table `t`,
/// giving `t2`: only the home slot of `id` changes, and it still holds `id`,
/// now with an object that has the property `p`.
pub open spec fn home_updated_such_that<T>(t: HomeTable<T>, t2: HomeTable<T>, id: u64, p: spec_fn(T) -> bool) -> bool {
    let h = home_slot(id, t.slots@.len()) as int;
    &&& t2.slots@ == t.slots@.update(h, t2.slots@[h])
    &&& t2.slots@[h] is Some
    &&& (t2.slots@[h]->0).0 == id
    &&& p((t2.slots@[h]->0).1)
    &&& t2.count == t.count
    &&& t2.next_index == t.next_index
}

/// A table of `capacity` slots in which every object sits in the home slot
/// of its id: insertion, lookup and removal look at that slot only.
pub struct HomeTable<T> {
    pub slots: Vec<Option<(u64, T)>>,
    pub next_index: usize,
    pub count: usize,
}

impl<T> HomeTable<T> {
    /// The table's shape: at least one slot and a probe start inside it.
    pub open spec fn wf(&self) -> bool {
        &&& self.slots@.len() > 0
        &&& self.next_index < self.slots@.len()
    }

    /// Value stored for `id`, as seen by a lookup.
    pub open spec fn find(&self, id: u64) -> Option<T> {
        home_lookup(self.slots@, id)
    }

    /// A table of `capacity` empty slots.
    pub fn new(capacity: usize) -> (t: Self)
        requires
            capacity > 0,
        ensures
            t.wf(),
            t.slots@.len() == capacity,
            forall|i: int| 0 <= i < capacity ==> t.slots@[i] is None,
            t.next_index == 0,
            t.count == 0,
    {
        let mut slots: Vec<Option<(u64, T)>> = Vec::new();
        let mut i: usize = 0;
        while i < capacity
            invariant
                i <= capacity,
                slots@.len() == i,
                forall|k: int| 0 <= k < i ==> slots@[k] is None,
            decreases capacity - i,
        {
            slots.push(None);
            i = i + 1;
        }
        HomeTable { slots, next_index: 0, count: 0 }
    }

    /// Object stored for `id`, looked up in its home slot only.
    pub fn get(&self, id: u64) -> (r: Option<&T>)
        requires
            self.wf(),
        ensures
            r matches Some(v) ==> self.find(id) == Some(*v),
            r is None ==> self.find(id) is None,
    {
        let idx = (#[verifier::truncate] (id as usize)) % self.slots.len();
        match &self.slots[idx] {
            Some(entry) => {
                if entry.0 == id {
                    Some(&entry.1)
                } else {
                    None
                }
            },
            None => None,
        }
    }

    /// Object stored for `id`, for in-place update.
    pub fn get_mut(&mut self, id: u64) -> (r: Option<&mut T>)
        requires
            old(self).wf(),
        ensures
            final(self).wf(),
            final(self).next_index == old(self).next_index,
            final(self).count == old(self).count,
            final(self).slots@.len() == old(self).slots@.len(),
            r is None ==> old(self).find(id) is None && *final(self) == *old(self),
            r matches Some(v) ==> old(self).find(id) == Some(*v) && final(self).slots@ == old(self).slots@.update(
                home_slot(id, old(self).slots@.len()) as int,
                Some((id, *final(v))),
            ),
    {
        let idx = (#[verifier::truncate] (id as usize)) % self.slots.len();
        let hit = match &self.slots[idx] {
            Some(entry) => entry.0 == id,
            None => false,
        };
        if !hit {
            return None;
        }
        match &mut self.slots[idx] {
            Some(entry) => Some(&mut entry.1),
            None => None,
        }
    }

    /// Place an object in the home slot of `id` only, failing with
    /// `RX_ERR_NO_RESOURCES` when that slot is taken.
    pub fn insert_home(&mut self, id: u64, value: T) -> (r: Result<(), Status>)
        requires
            old(self).wf(),
        ensures
            final(self).wf(),
            final(self).next_index == old(self).next_index,
            ({
                let h = home_slot(id, old(self).slots@.len()) as int;
                if old(self).slots@[h] is None {
                    &&& r is Ok
                    &&& final(self).slots@ == old(self).slots@.update(h, Some((id, value)))
                    &&& final(self).count == old(self).count.wrapping_add(1)
                } else {
                    r == Err::<(), Status>(RX_ERR_NO_RESOURCES) && *final(self) == *old(self)
                }
            }),
    {
        let idx = (#[verifier::truncate] (id as usize)) % self.slots.len();
        if self.slots[idx].is_some() {
            return Err(RX_ERR_NO_RESOURCES);
        }
        self.slots.set(idx, Some((id, value)));
        self.count = self.count.wrapping_add(1);
        Ok(())
    }

    /// Empty the home slot of `id` when it holds `id`'s entry, failing with
    /// `RX_ERR_NOT_FOUND` (and changing nothing) otherwise.
    pub fn remove_id(&mut self, id: u64) -> (r: Result<(), Status>)
        requires
            old(self).wf(),
        ensures
            final(self).wf(),
            final(self).next_index == old(self).next_index,
            ({
                let h = home_slot(id, old(self).slots@.len()) as int;
                if old(self).slots@[h] is Some && (old(self).slots@[h]->0).0 == id {
                    &&& r is Ok
                    &&& final(self).slots@ == old(self).slots@.update(h, None)
                    &&& final(self).count == old(self).count.wrapping_sub(1)
                } else {
                    r == Err::<(), Status>(RX_ERR_NOT_FOUND) && *final(self) == *old(self)
                }
            }),
    {
        let idx = (#[verifier::truncate] (id as usize)) % self.slots.len();
        let hit = match &self.slots[idx] {
            Some(entry) => entry.0 == id,
            None => false,
        };
        if !hit {
            return Err(RX_ERR_NOT_FOUND);
        }
        self.slots.set(idx, None);
        self.count = self.count.wrapping_sub(1);
        Ok(())
    }


}

/// `x % n` for `x` below twice the modulus.
proof fn lemma_mod_below_twice(x: int, n: int)
    requires
        n > 0,
        0 <= x < 2 * n,
    ensures
        x % n == if x < n { x } else { x - n },
{
    if x < n {
        vstd::arithmetic::div_mod::lemma_small_mod(x as nat, n as nat);
    } else {
        vstd::arithmetic::div_mod::lemma_mod_add_multiples_vanish(x - n, n);
        vstd::arithmetic::div_mod::lemma_small_mod((x - n) as nat, n as nat);
    }
}


/// The slot picked by `first_free` is free and lies within the probe.
proof fn lemma_first_free_is_free<T>(slots: Seq<Option<(u64, T)>>, h: nat, from: nat, d: nat)
    requires
        slots.len() > 0,
    ensures
        first_free(slots, h, from, d) matches Some(j) ==> from <= j < d && slots[((h + j) % slots.len()) as int] is None,
    decreases d - from,
{
    if from < d && slots[((h + from) % slots.len()) as int] is Some {
        lemma_first_free_is_free(slots, h, from + 1, d);
    }
}

/// No free slot is passed over by `first_free`: when it finds none, every
/// probed slot is taken.
proof fn lemma_first_free_none<T>(slots: Seq<Option<(u64, T)>>, h: nat, from: nat, d: nat)
    requires
        slots.len() > 0,
        first_free(slots, h, from, d) is None,
    ensures
        forall|j: nat| from <= j < d ==> slots[#[trigger] probe_at(h, j, slots.len())] is Some,
    decreases d - from,
{
    if from < d {
        lemma_first_free_none(slots, h, from + 1, d);
    }
}

/// What `match_from` finds holds `id`, and when it finds nothing no probed
/// slot holds `id`.
proof fn lemma_match_from<T>(slots: Seq<Option<(u64, T)>>, h: nat, id: u64, from: nat)
    requires
        slots.len() > 0,
    ensures
        match_from(slots, h, id, from) matches Some(j) ==> from <= j < slots.len()
            && holds(slots, ((h + j) % slots.len()) as int, id),
        match_from(slots, h, id, from) is None ==> forall|j: nat| from <= j < slots.len()
            ==> !holds(slots, #[trigger] probe_at(h, j, slots.len()), id),
    decreases slots.len() - from,
{
    if from < slots.len() && !holds(slots, ((h + from) % slots.len()) as int, id) {
        lemma_match_from(slots, h, id, from + 1);
    }
}

/// Every slot `k` is reached by some probe offset from any start `h`.
proof fn lemma_probe_covers(h: nat, k: int, n: nat) -> (j: nat)
    requires
        h < n,
        0 <= k < n,
    ensures
        j < n,
        probe_at(h, j, n) == k,
{
    let j: nat = if k >= h { (k - h) as nat } else { (k + n - h) as nat };
    lemma_mod_below_twice((h + j) as int, n as int);
    j
}

/// The slot a lookup finds holds `id`; when it finds none, no slot holds
/// `id`.
pub proof fn lemma_slot_of<T>(slots: Seq<Option<(u64, T)>>, id: u64)
    requires
        slots.len() > 0,
    ensures
        slot_of(slots, id) >= 0 ==> slot_of(slots, id) < slots.len() && holds(slots, slot_of(slots, id), id),
        slot_of(slots, id) < 0 ==> slot_of(slots, id) == -1 && forall|k: int| 0 <= k < slots.len() ==> !#[trigger] holds(slots, k, id),
{
    let n = slots.len();
    let h = home_slot(id, n);
    lemma_match_from(slots, h, id, 0);
    if let Some(j) = match_from(slots, h, id, 0) {
        vstd::arithmetic::div_mod::lemma_mod_bound((h + j) as int, n as int);
    } else {
        assert forall|k: int| 0 <= k < n implies !#[trigger] holds(slots, k, id) by {
            let j = lemma_probe_covers(h, k, n);
            assert(!holds(slots, probe_at(h, j, n), id));
        }
    }
}

/// Lookups of `id` agree on two tables whose slots hold `id` in the same
/// places.
proof fn lemma_match_same<T>(s1: Seq<Option<(u64, T)>>, s2: Seq<Option<(u64, T)>>, h: nat, id: u64, from: nat)
    requires
        s1.len() == s2.len(),
        s1.len() > 0,
        forall|k: int| 0 <= k < s1.len() ==> #[trigger] holds(s1, k, id) == holds(s2, k, id),
    ensures
        match_from(s1, h, id, from) == match_from(s2, h, id, from),
    decreases s1.len() - from,
{
    if from < s1.len() {
        vstd::arithmetic::div_mod::lemma_mod_bound((h + from) as int, s1.len() as int);
        lemma_match_same(s1, s2, h, id, from + 1);
    }
}

/// The ids `slots` hold, with the objects left out.
pub open spec fn ids_table<T>(slots: Seq<Option<(u64, T)>>) -> Seq<Option<(u64, ())>> {
    slots.map_values(|e: Option<(u64, T)>| if e is Some { Some(((e->0).0, ())) } else { None })
}

proof fn lemma_match_ids<T>(s: Seq<Option<(u64, T)>>, h: nat, id: u64, from: nat)
    requires
        s.len() > 0,
    ensures
        match_from(s, h, id, from) == match_from(ids_table(s), h, id, from),
    decreases s.len() - from,
{
    if from < s.len() {
        vstd::arithmetic::div_mod::lemma_mod_bound((h + from) as int, s.len() as int);
        lemma_match_ids(s, h, id, from + 1);
    }
}

/// A lookup depends only on which ids the slots hold: it finds the same
/// slot in `ids_table(s)`.
pub proof fn lemma_slot_of_ids<T>(s: Seq<Option<(u64, T)>>, id: u64)
    requires
        s.len() > 0,
    ensures
        slot_of(ids_table(s), id) == slot_of(s, id),
{
    lemma_match_ids(s, home_slot(id, s.len()), id, 0);
}

/// Writing entry `e` into slot `p` changes no lookup of an id that the slot
/// holds neither before nor after, and no lookup at all when the slot keeps
/// the id it held.
pub proof fn lemma_lookup_update<T>(s: Seq<Option<(u64, T)>>, p: int, e: Option<(u64, T)>, y: u64)
    requires
        s.len() > 0,
        0 <= p < s.len(),
        holds(s, p, y) == holds(s.update(p, e), p, y),
    ensures
        slot_of(s.update(p, e), y) == slot_of(s, y),
        slot_of(s, y) != p ==> lookup(s.update(p, e), y) == lookup(s, y),
{
    let s2 = s.update(p, e);
    assert forall|k: int| 0 <= k < s.len() implies #[trigger] holds(s, k, y) == holds(s2, k, y) by {}
    lemma_match_same(s, s2, home_slot(y, s.len()), y, 0);
    lemma_slot_of(s, y);
}

/// Replacing the object in a slot that holds `id` with any other object
/// under `id` changes no lookup's slot.
pub proof fn lemma_update_keeps_slots<T>(s: Seq<Option<(u64, T)>>, p: int, id: u64)
    requires
        s.len() > 0,
        0 <= p < s.len(),
        holds(s, p, id),
    ensures
        forall|x: T, y: u64| #[trigger] slot_of(s.update(p, Some((id, x))), y) == slot_of(s, y),
{
    assert forall|x: T, y: u64| #[trigger] slot_of(s.update(p, Some((id, x))), y) == slot_of(s, y) by {
        lemma_lookup_update(s, p, Some((id, x)), y);
    }
}

/// When exactly slot `p` holds `id`, a lookup of `id` finds slot `p`.
pub proof fn lemma_slot_of_only<T>(s: Seq<Option<(u64, T)>>, p: int, id: u64)
    requires
        s.len() > 0,
        0 <= p < s.len(),
        holds(s, p, id),
        forall|k: int| 0 <= k < s.len() && k != p ==> !#[trigger] holds(s, k, id),
    ensures
        slot_of(s, id) == p,
        lookup(s, id) == Some((s[p]->0).1),
{
    lemma_slot_of(s, id);
}

/// Law: an insertion under an id no slot holds succeeds whenever some slot
/// is free, and a lookup of the id then finds the inserted object.
pub proof fn lemma_insert_then_find<T>(t: SlotTable<T>, t2: SlotTable<T>, id: u64, value: T, r: Result<u64, Status>, free: int)
    requires
        t.wf(),
        insert_post(t, t2, id, value, r),
        t.find(id) is None,
        0 <= free < t.slots@.len() && t.slots@[free] is None,
    ensures
        r == Ok::<u64, Status>(id),
        t2.find(id) == Some(value),
{
    let n = t.slots@.len();
    let h = home_slot(id, n);
    lemma_slot_of(t.slots@, id);
    if first_free(t.slots@, h, 0, n) is None {
        lemma_first_free_none(t.slots@, h, 0, n);
        let j = lemma_probe_covers(h, free, n);
        assert(t.slots@[probe_at(h, j, n)] is Some);
    }
    lemma_insert_pos_free(t.slots@, t.next_index as nat, id);
    let pos = insert_pos(t.slots@, t.next_index as nat, id)->0;
    assert forall|k: int| 0 <= k < n && k != pos implies !#[trigger] holds(t2.slots@, k, id) by {
        assert(!holds(t.slots@, k, id));
    }
    lemma_slot_of_only(t2.slots@, pos, id);
}

/// Law: an insertion never changes what a lookup of any other id finds.
pub proof fn lemma_insert_keeps_others<T>(t: SlotTable<T>, t2: SlotTable<T>, id: u64, value: T, r: Result<u64, Status>, other: u64)
    requires
        t.wf(),
        insert_post(t, t2, id, value, r),
        other != id,
    ensures
        t2.find(other) == t.find(other),
{
    if r is Ok {
        lemma_insert_pos_free(t.slots@, t.next_index as nat, id);
        let pos = insert_pos(t.slots@, t.next_index as nat, id)->0;
        lemma_lookup_update(t.slots@, pos, Some((id, value)), other);
        lemma_slot_of(t.slots@, other);
    }
}

/// Law: a removal of `id` empties the slot a lookup of `id` found, changes
/// no lookup of another id, and, when no other slot holds `id`, a lookup of
/// `id` then finds nothing.
pub proof fn lemma_remove_then_find<T>(t: SlotTable<T>, t2: SlotTable<T>, id: u64, r: Option<T>, other: u64)
    requires
        t.wf(),
        remove_post(t, t2, id, r),
        other != id,
    ensures
        t2.find(other) == t.find(other),
        (forall|k: int, l: int| 0 <= k < l < t.slots@.len() ==> !(#[trigger] holds(t.slots@, k, id) && #[trigger] holds(t.slots@, l, id)))
            ==> t2.find(id) is None,
{
    lemma_slot_of(t.slots@, id);
    let p = slot_of(t.slots@, id);
    if p >= 0 {
        lemma_lookup_update(t.slots@, p, None, other);
        lemma_slot_of(t.slots@, other);
        if forall|k: int, l: int| 0 <= k < l < t.slots@.len() ==> !(#[trigger] holds(t.slots@, k, id) && #[trigger] holds(t.slots@, l, id)) {
            assert forall|k: int| 0 <= k < t2.slots@.len() implies !#[trigger] holds(t2.slots@, k, id) by {
                if k < p {
                    assert(!(holds(t.slots@, k, id) && holds(t.slots@, p, id)));
                } else if k > p {
                    assert(!(holds(t.slots@, p, id) && holds(t.slots@, k, id)));
                }
            }
            lemma_slot_of(t2.slots@, id);
        }
    }
}

/// A successful insertion leaves the entry in some slot of the table.
pub proof fn lemma_insert_post_slot<T>(t: SlotTable<T>, t2: SlotTable<T>, id: u64, value: T, r: Result<u64, Status>)
    requires
        t.wf(),
        insert_post(t, t2, id, value, r),
        r is Ok,
    ensures
        exists|i: int| 0 <= i < t2.slots@.len() && #[trigger] t2.slots@[i] == Some((id, value)),
{
    lemma_insert_pos_free(t.slots@, t.next_index as nat, id);
    let pos = insert_pos(t.slots@, t.next_index as nat, id)->0;
    assert(t2.slots@[pos] == Some((id, value)));
}

/// An insertion lands in the home slot of its id unless that slot is taken.
pub proof fn lemma_insert_pos_home<T>(slots: Seq<Option<(u64, T)>>, next: nat, id: u64)
    requires
        slots.len() > 0,
        insert_pos(slots, next, id) is Some,
    ensures
        insert_pos(slots, next, id)->0 == home_slot(id, slots.len()) as int || slots[home_slot(id, slots.len()) as int] is Some,
{
    let n = slots.len();
    let h = home_slot(id, n);
    lemma_mod_below_twice(h as int, n as int);
}

proof fn lemma_first_free_in<T>(s: Seq<Option<(u64, T)>>, h: nat, from: nat, d: nat)
    requires
        s.len() > 0,
    ensures
        first_free(s, h, from, d) == first_free_in(free_pattern(s), h, from, d),
    decreases d - from,
{
    if from < d {
        vstd::arithmetic::div_mod::lemma_mod_bound((h + from) as int, s.len() as int);
        lemma_first_free_in(s, h, from + 1, d);
    }
}

/// Where an insertion lands, read off the pattern of free slots.
pub proof fn lemma_insert_pos_in<T>(s: Seq<Option<(u64, T)>>, next: nat, id: u64)
    requires
        s.len() > 0,
    ensures
        insert_pos(s, next, id) == insert_pos_in(free_pattern(s), next, id),
{
    let n = s.len();
    let h = home_slot(id, n);
    lemma_first_free_in(s, h, 0, n);
}

/// An insertion finds a slot whenever some slot is free.
pub proof fn lemma_insert_pos_some<T>(slots: Seq<Option<(u64, T)>>, next: nat, id: u64, free: int)
    requires
        0 <= free < slots.len(),
        slots[free] is None,
    ensures
        insert_pos(slots, next, id) is Some,
{
    let n = slots.len();
    let h = home_slot(id, n);
    if first_free(slots, h, 0, n) is None {
        lemma_first_free_none(slots, h, 0, n);
        let j = lemma_probe_covers(h, free, n);
        assert(slots[probe_at(h, j, n)] is Some);
    }
}

/// An insertion lands in a free slot of the table.
pub proof fn lemma_insert_pos_free<T>(slots: Seq<Option<(u64, T)>>, next: nat, id: u64)
    requires
        slots.len() > 0,
        insert_pos(slots, next, id) is Some,
    ensures
        0 <= insert_pos(slots, next, id)->0 < slots.len(),
        slots[insert_pos(slots, next, id)->0] is None,
{
    let n = slots.len();
    let h = home_slot(id, n);
    lemma_first_free_is_free(slots, h, 0, n);
    let j = first_free(slots, h, 0, n)->0;
    vstd::arithmetic::div_mod::lemma_mod_bound((h + j) as int, n as int);
}

} // verus!

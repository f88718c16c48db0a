//! Admission control per client: a table of token buckets kept in this
//! process, and the decisions around a table that lives in a shared store.

use crate::bucket::{law_burst_then_wait, least, lemma_burst, BucketModel, BucketState, UNITS};
use crate::text::str_eq;
use vstd::prelude::*;

verus! {

/// What the table knows of one client.
pub struct SlotModel {
    /// The client's bucket.
    pub bucket: BucketModel,
    /// Instant of the client's last request, admitted or not, in milliseconds.
    pub seen: int,
}

/// The mathematical state of a table of buckets.
pub struct TableModel {
    /// A disabled table admits every request and records nothing.
    pub enabled: bool,
    /// Whole tokens a bucket holds.
    pub capacity: int,
    /// Tokens added to a bucket per second.
    pub fill_rate: int,
    /// Milliseconds without a request after which a client is forgotten.
    pub expiry: int,
    /// The clients on record, by key.
    pub slots: Map<Seq<char>, SlotModel>,
}

impl TableModel {
    /// Every bucket on record is well formed and has the table's settings.
    pub open spec fn wf(self) -> bool {
        &&& 0 <= self.capacity
        &&& 0 <= self.fill_rate
        &&& 0 <= self.expiry
        &&& forall|k: Seq<char>| #[trigger]
            self.slots.contains_key(k) ==> {
                &&& self.slots[k].bucket.wf()
                &&& self.slots[k].bucket.capacity == self.capacity
                &&& self.slots[k].bucket.fill_rate == self.fill_rate
            }
    }

    /// A client last seen at `seen` has been away for the whole expiry at `now`.
    pub open spec fn idle(self, seen: int, now: int) -> bool {
        now - seen >= self.expiry
    }

    /// The client is on record and has not been away for the whole expiry.
    pub open spec fn remembers(self, key: Seq<char>, now: int) -> bool {
        self.slots.contains_key(key) && !self.idle(self.slots[key].seen, now)
    }

    /// The bucket that answers a request of `key` at `now`: the one on record,
    /// or a full one where the client is new or has been forgotten.
    pub open spec fn bucket_for(self, key: Seq<char>, now: int) -> BucketModel {
        if self.remembers(key, now) {
            self.slots[key].bucket
        } else {
            BucketModel::full(self.capacity, self.fill_rate, now)
        }
    }

    /// Whether a request of `key` at `now` is admitted.
    pub open spec fn admits(self, key: Seq<char>, now: int) -> bool {
        !self.enabled || self.bucket_for(key, now).admits(now)
    }

    /// The instant at which `key` counts as last seen after a request at `now`.
    pub open spec fn seen_after(self, key: Seq<char>, now: int) -> int {
        if self.remembers(key, now) && self.slots[key].seen > now {
            self.slots[key].seen
        } else {
            now
        }
    }

    /// The table after a request of `key` at `now`: only that client's record
    /// changes.
    pub open spec fn after(self, key: Seq<char>, now: int) -> TableModel {
        if self.enabled {
            TableModel {
                slots: self.slots.insert(
                    key,
                    SlotModel {
                        bucket: self.bucket_for(key, now).after(now),
                        seen: self.seen_after(key, now),
                    },
                ),
                ..self
            }
        } else {
            self
        }
    }

    /// The table after every client that is idle at `now` has been dropped.
    pub open spec fn swept(self, now: int) -> TableModel {
        TableModel {
            slots: Map::new(
                |k: Seq<char>| self.slots.contains_key(k) && !self.idle(self.slots[k].seen, now),
                |k: Seq<char>| self.slots[k],
            ),
            ..self
        }
    }

    /// The table after `n` requests of `key` that all arrive at `now`.
    pub open spec fn after_burst(self, key: Seq<char>, now: int, n: nat) -> TableModel
        decreases n,
    {
        if n == 0 {
            self
        } else {
            self.after(key, now).after_burst(key, now, (n - 1) as nat)
        }
    }

    /// How many of `n` requests of `key` that all arrive at `now` are admitted.
    pub open spec fn admitted_in_burst(self, key: Seq<char>, now: int, n: nat) -> nat
        decreases n,
    {
        if n == 0 {
            0
        } else {
            let first: nat = if self.admits(key, now) {
                1
            } else {
                0
            };
            first + self.after(key, now).admitted_in_burst(key, now, (n - 1) as nat)
        }
    }
}

/// One client's record in the table.
struct Slot {
    key: String,
    state: BucketState,
    seen: u64,
}

impl Slot {
    spec fn model(self) -> SlotModel {
        SlotModel { bucket: self.state@, seen: self.seen as int }
    }
}

/// Whether some slot of `slots` belongs to `key`.
spec fn has_key(slots: Seq<Slot>, key: Seq<char>) -> bool {
    exists|i: int| 0 <= i < slots.len() && #[trigger] slots[i].key@ == key
}

/// The place of a slot that belongs to `key`.
spec fn place_of(slots: Seq<Slot>, key: Seq<char>) -> int {
    choose|i: int| 0 <= i < slots.len() && #[trigger] slots[i].key@ == key
}

/// No two slots share a key.
spec fn distinct(slots: Seq<Slot>) -> bool {
    forall|i: int, j: int|
        0 <= i < slots.len() && 0 <= j < slots.len() && #[trigger] slots[i].key@
            == #[trigger] slots[j].key@ ==> i == j
}

/// The records that a sequence of slots holds, by key.
spec fn records(slots: Seq<Slot>) -> Map<Seq<char>, SlotModel> {
    Map::new(|k: Seq<char>| has_key(slots, k), |k: Seq<char>| slots[place_of(slots, k)].model())
}

proof fn lemma_records_at(slots: Seq<Slot>, i: int)
    requires
        distinct(slots),
        0 <= i < slots.len(),
    ensures
        has_key(slots, slots[i].key@),
        place_of(slots, slots[i].key@) == i,
        records(slots)[slots[i].key@] == slots[i].model(),
{
}

/// A table of token buckets kept in this process, one bucket per client key.
pub struct MemTokenBucket {
    enabled: bool,
    capacity: u32,
    fill_rate: u32,
    expired: u32,
    slots: Vec<Slot>,
}

impl View for MemTokenBucket {
    type V = TableModel;

    closed spec fn view(&self) -> TableModel {
        TableModel {
            enabled: self.enabled,
            capacity: self.capacity as int,
            fill_rate: self.fill_rate as int,
            expiry: self.expired as int * UNITS as int,
            slots: records(self.slots@),
        }
    }
}

impl MemTokenBucket {
    #[verifier::type_invariant]
    spec fn inv(self) -> bool {
        &&& distinct(self.slots@)
        &&& forall|i: int|
            0 <= i < self.slots@.len() ==> {
                &&& (#[trigger] self.slots@[i]).state@.wf()
                &&& self.slots@[i].state@.capacity == self.capacity
                &&& self.slots@[i].state@.fill_rate == self.fill_rate
            }
    }

    /// An empty table. `capacity` is in whole tokens, `fill_rate` in tokens
    /// per second and `expired` in seconds.
    pub fn new(enabled: bool, capacity: u32, fill_rate: u32, expired: u32) -> (table: Self)
        ensures
            table@.wf(),
            table@.enabled == enabled,
            table@.capacity == capacity,
            table@.fill_rate == fill_rate,
            table@.expiry == expired * UNITS,
            table@.slots == Map::<Seq<char>, SlotModel>::empty(),
    {
        let table = MemTokenBucket { enabled, capacity, fill_rate, expired, slots: Vec::new() };
        assert(table@.slots =~= Map::<Seq<char>, SlotModel>::empty());
        table
    }

    /// Whether the table limits at all.
    pub fn enabled(&self) -> (on: bool)
        ensures
            on == self@.enabled,
    {
        self.enabled
    }

    /// How many clients are on record.
    pub fn len(&self) -> (n: usize)
        ensures
            n == self@.slots.dom().len(),
            self@.slots.dom().finite(),
    {
        proof {
            use_type_invariant(self);
            lemma_records_len(self.slots@);
        }
        self.slots.len()
    }

    /// The place of the slot of `key`, if it has one.
    fn find(&self, key: &str) -> (found: Option<usize>)
        ensures
            match found {
                Some(i) => i < self.slots@.len() && self.slots@[i as int].key@ == key@,
                None => !has_key(self.slots@, key@),
            },
    {
        let mut i: usize = 0;
        while i < self.slots.len()
            invariant
                i <= self.slots@.len(),
                forall|j: int| 0 <= j < i ==> (#[trigger] self.slots@[j]).key@ != key@,
            decreases self.slots@.len() - i,
        {
            if str_eq(self.slots[i].key.as_str(), key) {
                return Some(i);
            }
            i += 1;
        }
        None
    }

    /// Thousandths of a token that `key` has on record, if it is on record.
    pub fn tokens_of(&self, key: &str) -> (tokens: Option<u64>)
        ensures
            tokens is Some <==> self@.slots.contains_key(key@),
            tokens matches Some(t) ==> t == self@.slots[key@].bucket.tokens,
    {
        proof {
            use_type_invariant(self);
        }
        match self.find(key) {
            Some(i) => {
                proof {
                    lemma_records_at(self.slots@, i as int);
                }
                Some(self.slots[i].state.tokens())
            },
            None => None,
        }
    }

    /// Answers one request of `key` at `now` milliseconds. A client that is
    /// new, or that made no request for the whole expiry, starts from a full
    /// bucket. No other client's record changes.
    pub fn acquire(&mut self, key: &str, now: u64) -> (admitted: bool)
        ensures
            admitted == old(self)@.admits(key@, now as int),
            final(self)@ == old(self)@.after(key@, now as int),
            final(self)@.wf(),
    {
        proof {
            use_type_invariant(&*self);
            lemma_view_wf(*self);
        }
        if !self.enabled {
            return true;
        }
        let ghost before = *self;
        let expiry: u64 = self.expired as u64 * UNITS;
        let found = self.find(key);
        let mut slots: Vec<Slot> = Vec::new();
        std::mem::swap(&mut slots, &mut self.slots);
        let admitted = match found {
            Some(i) => {
                proof {
                    lemma_records_at(slots@, i as int);
                }
                let seen = slots[i].seen;
                let remembered = now < seen || now - seen < expiry;
                let mut state = if remembered {
                    slots[i].state
                } else {
                    BucketState::new(self.capacity, self.fill_rate, now)
                };
                let admitted = state.check(now);
                let seen_now = if remembered && seen > now {
                    seen
                } else {
                    now
                };
                let slot = Slot { key: key.to_owned(), state, seen: seen_now };
                proof {
                    lemma_records_set(slots@, i as int, slot);
                }
                slots.set(i, slot);
                admitted
            },
            None => {
                let mut state = BucketState::new(self.capacity, self.fill_rate, now);
                let admitted = state.check(now);
                let slot = Slot { key: key.to_owned(), state, seen: now };
                proof {
                    lemma_records_push(slots@, slot);
                }
                slots.push(slot);
                admitted
            },
        };
        self.slots = slots;
        proof {
            assert(self@.slots =~= before@.after(key@, now as int).slots);
            lemma_view_wf(*self);
        }
        admitted
    }

    /// Drops every client that made no request for the whole expiry at `now`,
    /// and says how many were dropped.
    pub fn sweep(&mut self, now: u64) -> (dropped: usize)
        ensures
            final(self)@ == old(self)@.swept(now as int),
            final(self)@.wf(),
            dropped == old(self)@.slots.dom().len() - final(self)@.slots.dom().len(),
    {
        proof {
            use_type_invariant(&*self);
        }
        let ghost before = *self;
        let expiry: u64 = self.expired as u64 * UNITS;
        let mut slots: Vec<Slot> = Vec::new();
        std::mem::swap(&mut slots, &mut self.slots);
        let mut kept: Vec<Slot> = Vec::new();
        let ghost mut origin: Seq<int> = Seq::empty();
        let mut i: usize = 0;
        while i < slots.len()
            invariant
                slots@ == before.slots@,
                before.inv(),
                expiry == before.expired as u64 * UNITS,
                i <= slots@.len(),
                origin.len() == kept@.len(),
                kept@.len() <= i,
                forall|a: int|
                    0 <= a < kept@.len() ==> {
                        &&& 0 <= #[trigger] origin[a] < i
                        &&& kept@[a].key@ == slots@[origin[a]].key@
                        &&& kept@[a].model() == slots@[origin[a]].model()
                        &&& !before@.idle(slots@[origin[a]].seen as int, now as int)
                    },
                forall|j: int|
                    0 <= j < i && !before@.idle((#[trigger] slots@[j]).seen as int, now as int)
                        ==> exists|a: int| 0 <= a < kept@.len() && origin[a] == j,
                distinct(kept@),
            decreases slots@.len() - i,
        {
            let seen = slots[i].seen;
            if now < seen || now - seen < expiry {
                let slot = Slot { key: slots[i].key.clone(), state: slots[i].state, seen };
                proof {
                    let next = kept@.push(slot);
                    assert forall|a: int, b: int|
                        0 <= a < next.len() && 0 <= b < next.len() && #[trigger] next[a].key@
                            == #[trigger] next[b].key@ implies a == b by {
                        let oa = if a < kept@.len() {
                            origin[a]
                        } else {
                            i as int
                        };
                        let ob = if b < kept@.len() {
                            origin[b]
                        } else {
                            i as int
                        };
                        assert(slots@[oa].key@ == slots@[ob].key@);
                        if a < kept@.len() && b < kept@.len() {
                            assert(kept@[a].key@ == kept@[b].key@);
                        }
                    }
                    let ghost grown = origin.push(i as int);
                    assert forall|j: int|
                        0 <= j < i + 1 && !before@.idle(
                            (#[trigger] slots@[j]).seen as int,
                            now as int,
                        ) implies exists|a: int| 0 <= a < next.len() && grown[a] == j by {
                        if j < i {
                            let a = choose|a: int| 0 <= a < kept@.len() && origin[a] == j;
                            assert(grown[a] == j);
                        } else {
                            assert(grown[kept@.len() as int] == j);
                        }
                    }
                    origin = grown;
                }
                kept.push(slot);
            }
            i += 1;
        }
        let dropped = slots.len() - kept.len();
        proof {
            let old_slots = slots@;
            let want = before@.swept(now as int).slots;
            assert forall|k: Seq<char>| has_key(kept@, k) == want.contains_key(k) by {
                if has_key(kept@, k) {
                    let a = place_of(kept@, k);
                    let j = origin[a];
                    assert(old_slots[j].key@ == k);
                    lemma_records_at(old_slots, j);
                }
                if want.contains_key(k) {
                    let j = place_of(old_slots, k);
                    lemma_records_at(old_slots, j);
                    let a = choose|a: int| 0 <= a < kept@.len() && origin[a] == j;
                    assert(kept@[a].key@ == k);
                }
            }
            assert forall|k: Seq<char>| has_key(kept@, k) implies #[trigger] records(kept@)[k]
                == want[k] by {
                let a = place_of(kept@, k);
                lemma_records_at(kept@, a);
                let j = origin[a];
                assert(old_slots[j].key@ == k);
                lemma_records_at(old_slots, j);
            }
            assert(records(kept@) =~= want);
            assert forall|a: int| 0 <= a < kept@.len() implies {
                &&& (#[trigger] kept@[a]).state@.wf()
                &&& kept@[a].state@.capacity == before.capacity
                &&& kept@[a].state@.fill_rate == before.fill_rate
            } by {
                let j = origin[a];
                assert(old_slots[j].state@.wf());
                assert(kept@[a].model() == old_slots[j].model());
            }
            lemma_records_len(old_slots);
            lemma_records_len(kept@);
        }
        self.slots = kept;
        proof {
            lemma_view_wf(*self);
        }
        dropped
    }
}

/// The view of a table that meets its invariant is well formed.
proof fn lemma_view_wf(table: MemTokenBucket)
    requires
        table.inv(),
    ensures
        table@.wf(),
{
    assert forall|k: Seq<char>| #[trigger] table@.slots.contains_key(k) implies {
        &&& table@.slots[k].bucket.wf()
        &&& table@.slots[k].bucket.capacity == table@.capacity
        &&& table@.slots[k].bucket.fill_rate == table@.fill_rate
    } by {
        let i = place_of(table.slots@, k);
        assert(table.slots@[i].state@.wf());
    }
}

/// Replacing the slot at `i` by one with the same key replaces that record.
proof fn lemma_records_set(slots: Seq<Slot>, i: int, slot: Slot)
    requires
        distinct(slots),
        0 <= i < slots.len(),
        slot.key@ == slots[i].key@,
    ensures
        distinct(slots.update(i, slot)),
        records(slots.update(i, slot)) =~= records(slots).insert(slot.key@, slot.model()),
{
    let next = slots.update(i, slot);
    assert forall|a: int, b: int|
        0 <= a < next.len() && 0 <= b < next.len() && #[trigger] next[a].key@
            == #[trigger] next[b].key@ implies a == b by {
        assert(next[a].key@ == slots[a].key@);
        assert(next[b].key@ == slots[b].key@);
    }
    assert forall|k: Seq<char>| has_key(next, k) == has_key(slots, k) by {
        if has_key(next, k) {
            let a = place_of(next, k);
            assert(slots[a].key@ == k);
        }
        if has_key(slots, k) {
            let a = place_of(slots, k);
            assert(next[a].key@ == k);
        }
    }
    lemma_records_at(slots, i);
    assert forall|k: Seq<char>| has_key(next, k) implies #[trigger] records(next)[k] == records(
        slots,
    ).insert(slot.key@, slot.model())[k] by {
        let a = place_of(next, k);
        lemma_records_at(next, a);
        assert(slots[a].key@ == k);
        lemma_records_at(slots, a);
    }
}

/// Adding a slot with a new key adds that record.
proof fn lemma_records_push(slots: Seq<Slot>, slot: Slot)
    requires
        distinct(slots),
        !has_key(slots, slot.key@),
    ensures
        distinct(slots.push(slot)),
        records(slots.push(slot)) =~= records(slots).insert(slot.key@, slot.model()),
{
    let next = slots.push(slot);
    assert forall|a: int, b: int|
        0 <= a < next.len() && 0 <= b < next.len() && #[trigger] next[a].key@
            == #[trigger] next[b].key@ implies a == b by {
        if a < slots.len() {
            assert(slots[a].key@ == next[a].key@);
        }
        if b < slots.len() {
            assert(slots[b].key@ == next[b].key@);
        }
    }
    assert forall|k: Seq<char>| has_key(next, k) == (has_key(slots, k) || k == slot.key@) by {
        if has_key(next, k) {
            let a = place_of(next, k);
            if a < slots.len() {
                assert(slots[a].key@ == k);
            }
        }
        if has_key(slots, k) {
            let a = place_of(slots, k);
            assert(next[a].key@ == k);
        }
        if k == slot.key@ {
            assert(next[slots.len() as int].key@ == k);
        }
    }
    assert forall|k: Seq<char>| has_key(next, k) implies #[trigger] records(next)[k] == records(
        slots,
    ).insert(slot.key@, slot.model())[k] by {
        let a = place_of(next, k);
        lemma_records_at(next, a);
        if a < slots.len() {
            assert(slots[a].key@ == k);
            lemma_records_at(slots, a);
        }
    }
}

/// Slots with distinct keys hold as many records as there are slots.
proof fn lemma_records_len(slots: Seq<Slot>)
    requires
        distinct(slots),
    ensures
        records(slots).dom().finite(),
        records(slots).dom().len() == slots.len(),
    decreases slots.len(),
{
    if slots.len() == 0 {
        assert(records(slots).dom() =~= Set::<Seq<char>>::empty());
    } else {
        let front = slots.drop_last();
        let last = slots.last();
        assert forall|a: int, b: int|
            0 <= a < front.len() && 0 <= b < front.len() && #[trigger] front[a].key@
                == #[trigger] front[b].key@ implies a == b by {
            assert(slots[a].key@ == front[a].key@);
            assert(slots[b].key@ == front[b].key@);
        }
        if has_key(front, last.key@) {
            let a = place_of(front, last.key@);
            assert(slots[a].key@ == slots[slots.len() - 1].key@);
        }
        lemma_records_len(front);
        assert(slots =~= front.push(last));
        lemma_records_push(front, last);
        assert(records(slots).dom() =~= records(front).dom().insert(last.key@));
    }
}

/// A request of one client leaves every other client as it was: the other's
/// record, the bucket that answers it and the answer it gets are unchanged,
/// and requests of two clients give the same table in either order.
pub proof fn law_keys_independent(
    table: TableModel,
    key: Seq<char>,
    now: int,
    other: Seq<char>,
    then: int,
)
    requires
        key != other,
    ensures
        table.after(key, now).slots.contains_key(other) == table.slots.contains_key(other),
        table.slots.contains_key(other) ==> table.after(key, now).slots[other]
            == table.slots[other],
        table.after(key, now).bucket_for(other, then) == table.bucket_for(other, then),
        table.after(key, now).admits(other, then) == table.admits(other, then),
        table.after(key, now).after(other, then) == table.after(other, then).after(key, now),
{
    let a = table.after(key, now).after(other, then);
    let b = table.after(other, then).after(key, now);
    assert(a.slots =~= b.slots);
}

/// A client that made no request for the whole expiry is forgotten: a sweep
/// drops its record, and its next request is answered by a full bucket.
pub proof fn law_idle_client_starts_full(table: TableModel, key: Seq<char>, now: int)
    requires
        table.wf(),
        table.enabled,
        table.slots.contains_key(key),
        now - table.slots[key].seen >= table.expiry,
    ensures
        !table.swept(now).slots.contains_key(key),
        table.bucket_for(key, now) == BucketModel::full(table.capacity, table.fill_rate, now),
        table.admits(key, now) == (table.capacity >= 1),
        table.capacity >= 1 ==> table.after(key, now).slots[key].bucket.tokens == (table.capacity
            - 1) * UNITS,
        table.after(key, now).slots[key].seen == now,
{
    let fresh = BucketModel::full(table.capacity, table.fill_rate, now);
    assert(fresh.elapsed(now) * fresh.fill_rate == 0) by (nonlinear_arith)
        requires
            fresh.elapsed(now) == 0,
    ;
}

/// While a client stays on record, requests that arrive together are answered
/// by its bucket alone.
pub proof fn lemma_table_burst(table: TableModel, key: Seq<char>, now: int, n: nat)
    requires
        table.wf(),
        table.enabled,
        table.expiry > 0,
    ensures
        table.admitted_in_burst(key, now, n) == table.bucket_for(key, now).admitted_in_burst(
            now,
            n,
        ),
        table.after_burst(key, now, n).wf(),
        table.after_burst(key, now, n).enabled,
        table.after_burst(key, now, n).capacity == table.capacity,
        table.after_burst(key, now, n).fill_rate == table.fill_rate,
        table.after_burst(key, now, n).expiry == table.expiry,
        n >= 1 ==> table.after_burst(key, now, n).slots.contains_key(key),
        n >= 1 ==> table.after_burst(key, now, n).slots[key].bucket == table.bucket_for(
            key,
            now,
        ).after_burst(now, n),
        n >= 1 ==> table.after_burst(key, now, n).slots[key].seen == table.seen_after(key, now),
    decreases n,
{
    if n > 0 {
        let bucket = table.bucket_for(key, now);
        assert(bucket.wf());
        lemma_burst(bucket, now, 1);
        assert(bucket.after_burst(now, 1) == bucket.after(now)) by {
            assert(bucket.after(now).after_burst(now, 0) == bucket.after(now));
        }
        let next = table.after(key, now);
        assert(next.wf());
        assert(next.remembers(key, now));
        assert(next.bucket_for(key, now) == bucket.after(now));
        lemma_table_burst(next, key, now, (n - 1) as nat);
        if n == 1 {
            assert(next.after_burst(key, now, 0) == next);
        }
    }
}

/// A client that is new to the table, or forgotten by it, sends `n` requests
/// together at `now`: exactly the smaller of `n` and the capacity are
/// admitted, and the request after `capacity` admitted ones is denied. Once
/// its bucket is spent (`n >= capacity`), after a wait of `wait` milliseconds
/// that is shorter than the expiry and refills at least one token and less
/// than two, exactly one more of its requests is admitted, however many
/// (`m >= 1`) then arrive together.
pub proof fn law_table_burst_then_wait(
    table: TableModel,
    key: Seq<char>,
    now: int,
    n: nat,
    wait: int,
    m: nat,
)
    requires
        table.wf(),
        table.enabled,
        table.expiry > 0,
        !table.remembers(key, now),
        wait >= 0,
    ensures
        table.admitted_in_burst(key, now, n) == least(n as int, table.capacity),
        !table.after_burst(key, now, table.capacity as nat).admits(key, now),
        table.capacity >= 1 && n >= table.capacity && m >= 1 && wait < table.expiry && UNITS
            <= wait * table.fill_rate < 2 * UNITS ==> table.after_burst(
            key,
            now,
            n,
        ).admitted_in_burst(key, now + wait, m) == 1,
{
    let fresh = BucketModel::full(table.capacity, table.fill_rate, now);
    assert(table.bucket_for(key, now) == fresh);
    law_burst_then_wait(table.capacity, table.fill_rate, now, n, wait, m);
    lemma_table_burst(table, key, now, n);
    lemma_table_burst(table, key, now, table.capacity as nat);
    let spent = table.after_burst(key, now, table.capacity as nat);
    if table.capacity >= 1 {
        assert(spent.remembers(key, now));
        assert(spent.bucket_for(key, now) == fresh.after_burst(now, table.capacity as nat));
    } else {
        assert(spent == table);
        assert(fresh.after_burst(now, 0) == fresh);
    }
    if table.capacity >= 1 && n >= table.capacity && m >= 1 && wait < table.expiry && UNITS
        <= wait * table.fill_rate < 2 * UNITS {
        let drained = table.after_burst(key, now, n);
        assert(drained.remembers(key, now + wait));
        lemma_table_burst(drained, key, now + wait, m);
    }
}

/// Where the buckets are kept.
#[derive(Clone, Copy, Debug, PartialEq, Eq, Structural)]
pub enum Strategy {
    /// In a table of this process.
    Mem,
    /// In a store that several processes share.
    Redis,
}

/// A strategy name that is not known.
#[derive(Debug)]
pub struct UnsupportedStrategy {
    /// The name as it was given.
    pub name: String,
}

impl Strategy {
    /// The strategy that `name` names if `name` is one.
    pub open spec fn named(name: Seq<char>) -> Option<Strategy> {
        if name == "mem"@ {
            Some(Strategy::Mem)
        } else if name == "redis"@ {
            Some(Strategy::Redis)
        } else {
            None
        }
    }

    /// Reads a strategy name: `mem` or `redis`. Any other name is refused.
    pub fn from_str(name: &str) -> (parsed: Result<Strategy, UnsupportedStrategy>)
        ensures
            match parsed {
                Ok(strategy) => Strategy::named(name@) == Some(strategy),
                Err(refused) => Strategy::named(name@) is None && refused.name@ == name@,
            },
    {
        if str_eq(name, "mem") {
            Ok(Strategy::Mem)
        } else if str_eq(name, "redis") {
            Ok(Strategy::Redis)
        } else {
            Err(UnsupportedStrategy { name: name.to_owned() })
        }
    }
}

/// What a shared store is asked to do for one request, as one atomic step:
/// take the record that it keeps for `key`, let [`StoreCall::apply`] answer
/// and say what to keep, and keep that. It may forget a key after `expiry`
/// milliseconds without a request.
#[derive(Debug)]
pub struct StoreCall {
    /// Where the store is reached.
    pub url: String,
    /// The client.
    pub key: String,
    /// The instant of the request, in milliseconds.
    pub now: u64,
    /// Whole tokens a bucket holds.
    pub capacity: u32,
    /// Tokens added per second.
    pub fill_rate: u32,
    /// Milliseconds without a request after which the key is forgotten.
    pub expiry: u64,
}

/// What a shared store keeps for one key.
#[derive(Clone, Copy, Debug, PartialEq, Eq, Structural)]
pub struct Kept {
    /// Thousandths of a token in the key's bucket.
    pub tokens: u64,
    /// Instant of the key's last admitted request, in milliseconds.
    pub last_refill: u64,
    /// Instant of the key's last request, in milliseconds.
    pub seen: u64,
}

impl StoreCall {
    /// The table of one client that a store's record for the call's key
    /// stands for. A record that holds more than a bucket can hold counts as
    /// no record.
    pub open spec fn table(self, kept: Option<Kept>) -> TableModel {
        TableModel {
            enabled: true,
            capacity: self.capacity as int,
            fill_rate: self.fill_rate as int,
            expiry: self.expiry as int,
            slots: match kept {
                Some(k) => if k.tokens <= self.capacity * UNITS {
                    Map::<Seq<char>, SlotModel>::empty().insert(
                        self.key@,
                        SlotModel {
                            bucket: BucketModel {
                                tokens: k.tokens as int,
                                capacity: self.capacity as int,
                                fill_rate: self.fill_rate as int,
                                last_refill: k.last_refill as int,
                            },
                            seen: k.seen as int,
                        },
                    )
                } else {
                    Map::<Seq<char>, SlotModel>::empty()
                },
                None => Map::<Seq<char>, SlotModel>::empty(),
            },
        }
    }

    /// The step that a store takes for the call, all at once: from the record
    /// that it keeps for the key, if any, to the answer and the record to
    /// keep. It is the step that a table of this process takes for the key.
    pub fn apply(&self, kept: Option<Kept>) -> (done: (bool, Kept))
        ensures
            done.0 == self.table(kept).admits(self.key@, self.now as int),
            self.table(Some(done.1)).slots == self.table(kept).after(
                self.key@,
                self.now as int,
            ).slots,
            done.1.tokens <= self.capacity * UNITS,
    {
        let held = match kept {
            Some(k) => {
                if self.now < k.seen || self.now - k.seen < self.expiry {
                    match BucketState::from_parts(
                        k.tokens,
                        self.capacity,
                        self.fill_rate,
                        k.last_refill,
                    ) {
                        Some(state) => Some((state, k.seen)),
                        None => None,
                    }
                } else {
                    None
                }
            },
            None => None,
        };
        let (mut state, seen) = match held {
            Some((state, seen)) => (
                state,
                if seen > self.now {
                    seen
                } else {
                    self.now
                },
            ),
            None => (BucketState::new(self.capacity, self.fill_rate, self.now), self.now),
        };
        let admitted = state.check(self.now);
        let next = Kept { tokens: state.tokens(), last_refill: state.last_refill(), seen };
        proof {
            let before = self.table(kept);
            let after = before.after(self.key@, self.now as int);
            assert(state@.wf()) by {
                let start = before.bucket_for(self.key@, self.now as int);
                assert(start.wf());
                lemma_burst(start, self.now as int, 1);
                assert(start.after(self.now as int).after_burst(self.now as int, 0) == start.after(
                    self.now as int,
                ));
            }
            assert(self.table(Some(next)).slots =~= after.slots);
        }
        (admitted, next)
    }
}

/// The answer to one request.
#[derive(Debug)]
pub enum Admission {
    /// The request goes on.
    Admit,
    /// The client is over its rate.
    Deny,
    /// The shared store decides.
    AskStore(StoreCall),
}

/// What came back from a shared store.
#[derive(Clone, Copy, Debug, PartialEq, Eq, Structural)]
pub enum StoreReply {
    /// The store took a token for the request.
    Admitted,
    /// The store had no token for the request.
    Denied,
    /// The store could not be reached or did not answer.
    Unreachable,
}

/// The settings of a limiter whose buckets live in a shared store.
pub struct SharedTokenBucket {
    /// A disabled limiter admits every request and asks nothing.
    pub enabled: bool,
    /// Whole tokens a bucket holds.
    pub capacity: u32,
    /// Tokens added per second.
    pub fill_rate: u32,
    /// Seconds without a request after which a client is forgotten.
    pub expired: u32,
    /// Where the store is reached.
    pub url: String,
}

/// The limiter that the request path consults.
pub enum TokenBucketLimitContext {
    /// Buckets in a table of this process.
    Mem(MemTokenBucket),
    /// Buckets in a shared store.
    Redis(SharedTokenBucket),
}

impl TokenBucketLimitContext {
    /// A limiter with the given settings. `capacity` is in whole tokens,
    /// `fill_rate` in tokens per second, `expired` in seconds.
    pub fn new(
        strategy: Strategy,
        enabled: bool,
        capacity: u32,
        fill_rate: u32,
        expired: u32,
        url: String,
    ) -> (context: Self)
        ensures
            match strategy {
                Strategy::Mem => context matches TokenBucketLimitContext::Mem(table)
                    && table@.wf() && table@.enabled == enabled && table@.capacity == capacity
                    && table@.fill_rate == fill_rate && table@.expiry == expired * UNITS
                    && table@.slots == Map::<Seq<char>, SlotModel>::empty(),
                Strategy::Redis => context matches TokenBucketLimitContext::Redis(shared)
                    && shared.enabled == enabled && shared.capacity == capacity
                    && shared.fill_rate == fill_rate && shared.expired == expired && shared.url
                    == url,
            },
    {
        match strategy {
            Strategy::Mem => TokenBucketLimitContext::Mem(
                MemTokenBucket::new(enabled, capacity, fill_rate, expired),
            ),
            Strategy::Redis => TokenBucketLimitContext::Redis(
                SharedTokenBucket { enabled, capacity, fill_rate, expired, url },
            ),
        }
    }

    /// Which strategy the limiter follows.
    pub fn strategy(&self) -> (strategy: Strategy)
        ensures
            strategy == (match self {
                TokenBucketLimitContext::Mem(_) => Strategy::Mem,
                TokenBucketLimitContext::Redis(_) => Strategy::Redis,
            }),
    {
        match self {
            TokenBucketLimitContext::Mem(_) => Strategy::Mem,
            TokenBucketLimitContext::Redis(_) => Strategy::Redis,
        }
    }

    /// Drops the clients of this process's table that made no request for
    /// the whole expiry at `now`, and says how many were dropped. A shared
    /// store forgets its keys by itself, so nothing is dropped here.
    pub fn sweep(&mut self, now: u64) -> (dropped: usize)
        ensures
            match *old(self) {
                TokenBucketLimitContext::Mem(table) => {
                    &&& *final(self) matches TokenBucketLimitContext::Mem(next)
                    &&& next@ == table@.swept(now as int)
                    &&& dropped == table@.slots.dom().len() - next@.slots.dom().len()
                },
                TokenBucketLimitContext::Redis(_) => *final(self) == *old(self) && dropped == 0,
            },
    {
        match self {
            TokenBucketLimitContext::Mem(table) => table.sweep(now),
            TokenBucketLimitContext::Redis(_) => 0,
        }
    }

    /// Answers one request of `key` at `now` milliseconds as far as this
    /// process can. A table of this process answers for good. With a shared
    /// store a disabled limiter admits, and an enabled one hands back the
    /// call to make; [`settle`] then reads the store's reply.
    pub fn acquire(&mut self, key: &str, now: u64) -> (answer: Admission)
        ensures
            match *old(self) {
                TokenBucketLimitContext::Mem(table) => {
                    &&& *final(self) matches TokenBucketLimitContext::Mem(next)
                    &&& next@ == table@.after(key@, now as int)
                    &&& table@.admits(key@, now as int) ==> answer is Admit
                    &&& !table@.admits(key@, now as int) ==> answer is Deny
                },
                TokenBucketLimitContext::Redis(shared) => {
                    &&& *final(self) == *old(self)
                    &&& !shared.enabled ==> answer is Admit
                    &&& shared.enabled ==> (answer matches Admission::AskStore(call) && call.url@
                        == shared.url@ && call.key@ == key@ && call.now == now && call.capacity
                        == shared.capacity && call.fill_rate == shared.fill_rate && call.expiry
                        == shared.expired * UNITS)
                },
            },
    {
        match self {
            TokenBucketLimitContext::Mem(table) => {
                if table.acquire(key, now) {
                    Admission::Admit
                } else {
                    Admission::Deny
                }
            },
            TokenBucketLimitContext::Redis(shared) => {
                if !shared.enabled {
                    Admission::Admit
                } else {
                    Admission::AskStore(
                        StoreCall {
                            url: shared.url.clone(),
                            key: key.to_owned(),
                            now,
                            capacity: shared.capacity,
                            fill_rate: shared.fill_rate,
                            expiry: shared.expired as u64 * UNITS,
                        },
                    )
                }
            },
        }
    }
}

/// Reads a shared store's reply: the request goes on only if the store took a
/// token for it. A store that cannot be reached denies.
pub fn settle(reply: StoreReply) -> (admitted: bool)
    ensures
        admitted == (reply == StoreReply::Admitted),
{
    match reply {
        StoreReply::Admitted => true,
        StoreReply::Denied => false,
        StoreReply::Unreachable => false,
    }
}

/// The key under which a client's requests are counted: its credential where
/// it sent one, else the address it called from.
pub fn bucket_key(token: Option<&str>, address: &str) -> (key: String)
    ensures
        key@ == (match token {
            Some(t) => t@,
            None => address@,
        }),
{
    match token {
        Some(t) => t.to_owned(),
        None => address.to_owned(),
    }
}

} // verus!

//! One client's token bucket: continuous refill, one token per admitted request.
//!
//! Time is counted in milliseconds and tokens in thousandths, so that a fill
//! rate given in whole tokens per second refills by exactly
//! `elapsed * fill_rate` thousandths and no rounding ever takes place.

use vstd::prelude::*;

verus! {

/// Thousandths in one token, and milliseconds in one second.
pub const UNITS: u64 = 1000;

/// The mathematical state of a bucket.
pub struct BucketModel {
    /// Tokens in the bucket, in thousandths.
    pub tokens: int,
    /// Most tokens the bucket holds, in whole tokens.
    pub capacity: int,
    /// Tokens added per second.
    pub fill_rate: int,
    /// Instant of the last admitted request, in milliseconds.
    pub last_refill: int,
}

impl BucketModel {
    /// The bucket holds between nothing and its capacity.
    pub open spec fn wf(self) -> bool {
        &&& 0 <= self.capacity
        &&& 0 <= self.fill_rate
        &&& 0 <= self.tokens <= self.capacity * UNITS
    }

    /// A full bucket whose clock starts at `now`.
    pub open spec fn full(capacity: int, fill_rate: int, now: int) -> BucketModel {
        BucketModel { tokens: capacity * UNITS, capacity, fill_rate, last_refill: now }
    }

    /// Milliseconds that count as passed at `now`. A reading that lies before
    /// the last refill counts as that instant: the clock never runs backwards.
    pub open spec fn elapsed(self, now: int) -> int {
        if now >= self.last_refill {
            now - self.last_refill
        } else {
            0
        }
    }

    /// Thousandths on hand at `now`: what was left plus the refill, capped.
    pub open spec fn available(self, now: int) -> int {
        let grown = self.tokens + self.elapsed(now) * self.fill_rate;
        if grown <= self.capacity * UNITS {
            grown
        } else {
            self.capacity * UNITS
        }
    }

    /// A request at `now` is admitted when a whole token is on hand.
    pub open spec fn admits(self, now: int) -> bool {
        self.available(now) >= UNITS
    }

    /// The bucket after a request at `now`. An admitted request takes one
    /// token out of what is on hand and moves the clock; a denied one leaves
    /// the bucket as it was.
    pub open spec fn after(self, now: int) -> BucketModel {
        if self.admits(now) {
            BucketModel {
                tokens: self.available(now) - UNITS,
                last_refill: if now >= self.last_refill {
                    now
                } else {
                    self.last_refill
                },
                ..self
            }
        } else {
            self
        }
    }

    /// The bucket after `n` requests that all arrive at `now`.
    pub open spec fn after_burst(self, now: int, n: nat) -> BucketModel
        decreases n,
    {
        if n == 0 {
            self
        } else {
            self.after(now).after_burst(now, (n - 1) as nat)
        }
    }

    /// How many of `n` requests that all arrive at `now` are admitted.
    pub open spec fn admitted_in_burst(self, now: int, n: nat) -> nat
        decreases n,
    {
        if n == 0 {
            0
        } else {
            let first: nat = if self.admits(now) {
                1
            } else {
                0
            };
            first + self.after(now).admitted_in_burst(now, (n - 1) as nat)
        }
    }

    /// The bucket after one request at each of the instants `times`, in order.
    pub open spec fn after_all(self, times: Seq<int>) -> BucketModel
        decreases times.len(),
    {
        if times.len() == 0 {
            self
        } else {
            self.after(times[0]).after_all(times.drop_first())
        }
    }

    /// How many requests are admitted of one at each of the instants `times`,
    /// in order.
    pub open spec fn admitted_of(self, times: Seq<int>) -> nat
        decreases times.len(),
    {
        if times.len() == 0 {
            0
        } else {
            let first: nat = if self.admits(times[0]) {
                1
            } else {
                0
            };
            first + self.after(times[0]).admitted_of(times.drop_first())
        }
    }
}

/// The instants `times` follow each other, none before `from` and none
/// after `until`.
pub open spec fn in_order(times: Seq<int>, from: int, until: int) -> bool
    decreases times.len(),
{
    if times.len() == 0 {
        from <= until
    } else {
        from <= times[0] && in_order(times.drop_first(), times[0], until)
    }
}

/// The smaller of two numbers.
pub open spec fn least(a: int, b: int) -> int {
    if a <= b {
        a
    } else {
        b
    }
}

/// Of `n` requests that arrive together, exactly as many are admitted as
/// whole tokens are on hand, and each admitted one takes one token.
pub proof fn lemma_burst(s: BucketModel, now: int, n: nat)
    requires
        s.wf(),
    ensures
        s.admitted_in_burst(now, n) == least(n as int, s.available(now) / (UNITS as int)),
        s.after_burst(now, n).wf(),
        s.after_burst(now, n).capacity == s.capacity,
        s.after_burst(now, n).fill_rate == s.fill_rate,
        n > 0 && s.admits(now) ==> s.after_burst(now, n).tokens == s.available(now) - UNITS
            * s.admitted_in_burst(now, n),
        n > 0 && s.admits(now) ==> s.after_burst(now, n).last_refill == (if now >= s.last_refill {
            now
        } else {
            s.last_refill
        }),
        n == 0 || !s.admits(now) ==> s.after_burst(now, n) == s,
    decreases n,
{
    assert(s.elapsed(now) * s.fill_rate >= 0) by (nonlinear_arith)
        requires
            s.elapsed(now) >= 0,
            s.fill_rate >= 0,
    ;
    if n > 0 {
        let next = s.after(now);
        assert(next.elapsed(now) == 0 || next == s);
        assert(next.elapsed(now) * next.fill_rate == 0 || next == s) by (nonlinear_arith)
            requires
                next.elapsed(now) == 0 || next == s,
        ;
        lemma_burst(next, now, (n - 1) as nat);
    }
}

/// A fresh bucket of capacity `capacity` answers `n` requests that arrive
/// together at `now`: exactly the smaller of `n` and `capacity` are admitted,
/// and the request after `capacity` admitted ones is denied. Once the bucket
/// is spent (`n >= capacity`), a wait of `wait` milliseconds that refills at
/// least one token and less than two lets exactly one more request in, however
/// many (`m >= 1`) then arrive together.
pub proof fn law_burst_then_wait(
    capacity: int,
    fill_rate: int,
    now: int,
    n: nat,
    wait: int,
    m: nat,
)
    requires
        BucketModel::full(capacity, fill_rate, now).wf(),
        wait >= 0,
    ensures
        BucketModel::full(capacity, fill_rate, now).admitted_in_burst(now, n) == least(
            n as int,
            capacity,
        ),
        !BucketModel::full(capacity, fill_rate, now).after_burst(now, capacity as nat).admits(now),
        capacity >= 1 && n >= capacity && m >= 1 && UNITS <= wait * fill_rate < 2 * UNITS
            ==> BucketModel::full(capacity, fill_rate, now).after_burst(now, n).admitted_in_burst(
            now + wait,
            m,
        ) == 1,
{
    let fresh = BucketModel::full(capacity, fill_rate, now);
    assert(fresh.elapsed(now) * fresh.fill_rate == 0) by (nonlinear_arith)
        requires
            fresh.elapsed(now) == 0,
    ;
    assert(fresh.available(now) == capacity * UNITS);
    lemma_burst(fresh, now, n);
    lemma_burst(fresh, now, capacity as nat);
    let spent = fresh.after_burst(now, capacity as nat);
    assert(spent.elapsed(now) * spent.fill_rate == 0) by (nonlinear_arith)
        requires
            spent.elapsed(now) == 0,
    ;
    if capacity >= 1 && n >= capacity && m >= 1 && UNITS <= wait * fill_rate < 2 * UNITS {
        let drained = fresh.after_burst(now, n);
        assert(drained.tokens == 0);
        assert(drained.last_refill == now);
        assert(drained.elapsed(now + wait) == wait);
        assert(UNITS <= drained.available(now + wait) < 2 * UNITS);
        lemma_burst(drained, now + wait, m);
    }
}

/// However requests are spread over time, a bucket admits no more than it
/// held at the start plus what was refilled since: from a full bucket, no
/// more than its capacity plus the fill rate times the time that passed.
pub proof fn law_rate_is_bounded(s: BucketModel, times: Seq<int>, until: int)
    requires
        s.wf(),
        in_order(times, s.last_refill, until),
    ensures
        s.admitted_of(times) * UNITS <= s.tokens + (until - s.last_refill) * s.fill_rate,
        s.admitted_of(times) * UNITS <= s.capacity * UNITS + (until - s.last_refill) * s.fill_rate,
    decreases times.len(),
{
    if times.len() == 0 {
        assert((until - s.last_refill) * s.fill_rate >= 0) by (nonlinear_arith)
            requires
                until - s.last_refill >= 0,
                s.fill_rate >= 0,
        ;
    } else {
        let now = times[0];
        let next = s.after(now);
        assert(s.elapsed(now) == now - s.last_refill);
        assert(s.elapsed(now) * s.fill_rate >= 0) by (nonlinear_arith)
            requires
                s.elapsed(now) >= 0,
                s.fill_rate >= 0,
        ;
        assert(in_order(times.drop_first(), next.last_refill, until)) by {
            reveal_with_fuel(in_order, 2);
        }
        law_rate_is_bounded(next, times.drop_first(), until);
        if s.admits(now) {
            assert(next.last_refill == now);
            assert((now - s.last_refill) * s.fill_rate + (until - now) * s.fill_rate == (until
                - s.last_refill) * s.fill_rate) by (nonlinear_arith);
        } else {
            assert(next == s);
        }
    }
}

/// One client's bucket.
#[derive(Clone, Copy, Debug)]
pub struct BucketState {
    tokens: u64,
    capacity: u32,
    fill_rate: u32,
    last_refill: u64,
}

impl View for BucketState {
    type V = BucketModel;

    closed spec fn view(&self) -> BucketModel {
        BucketModel {
            tokens: self.tokens as int,
            capacity: self.capacity as int,
            fill_rate: self.fill_rate as int,
            last_refill: self.last_refill as int,
        }
    }
}

impl BucketState {
    #[verifier::type_invariant]
    spec fn inv(self) -> bool {
        self@.wf()
    }

    /// A full bucket of `capacity` tokens that refills by `fill_rate` tokens
    /// per second, first seen at `now` milliseconds.
    pub fn new(capacity: u32, fill_rate: u32, now: u64) -> (state: BucketState)
        ensures
            state@ == BucketModel::full(capacity as int, fill_rate as int, now as int),
            state@.wf(),
    {
        assert(capacity as u64 * UNITS <= u64::MAX) by (nonlinear_arith)
            requires
                capacity <= u32::MAX,
        ;
        BucketState { tokens: capacity as u64 * UNITS, capacity, fill_rate, last_refill: now }
    }

    /// The bucket that holds `tokens` thousandths and last admitted a request
    /// at `last_refill`, as a store may have kept it; nothing where that is
    /// more than the bucket can hold.
    pub fn from_parts(tokens: u64, capacity: u32, fill_rate: u32, last_refill: u64) -> (state:
        Option<BucketState>)
        ensures
            state is Some <==> tokens <= capacity * UNITS,
            state matches Some(s) ==> s@ == (BucketModel {
                tokens: tokens as int,
                capacity: capacity as int,
                fill_rate: fill_rate as int,
                last_refill: last_refill as int,
            }),
    {
        assert(capacity as u64 * UNITS <= u64::MAX) by (nonlinear_arith)
            requires
                capacity <= u32::MAX,
        ;
        if tokens <= capacity as u64 * UNITS {
            Some(BucketState { tokens, capacity, fill_rate, last_refill })
        } else {
            None
        }
    }

    /// Thousandths of a token now in the bucket.
    pub fn tokens(&self) -> (t: u64)
        ensures
            t == self@.tokens,
    {
        self.tokens
    }

    /// Most whole tokens the bucket holds.
    pub fn capacity(&self) -> (c: u32)
        ensures
            c == self@.capacity,
    {
        self.capacity
    }

    /// Tokens added per second.
    pub fn fill_rate(&self) -> (r: u32)
        ensures
            r == self@.fill_rate,
    {
        self.fill_rate
    }

    /// Instant of the last admitted request, in milliseconds.
    pub fn last_refill(&self) -> (t: u64)
        ensures
            t == self@.last_refill,
    {
        self.last_refill
    }

    /// Thousandths on hand at `now`.
    pub fn available(&self, now: u64) -> (units: u64)
        ensures
            units == self@.available(now as int),
    {
        proof {
            use_type_invariant(self);
        }
        let elapsed: u64 = if now >= self.last_refill {
            now - self.last_refill
        } else {
            0
        };
        let full: u64 = self.capacity as u64 * UNITS;
        assert(elapsed as int * self.fill_rate as int <= u64::MAX as int * u32::MAX as int
            && elapsed as int * self.fill_rate as int >= 0) by (nonlinear_arith)
            requires
                0 <= elapsed <= u64::MAX,
                0 <= self.fill_rate <= u32::MAX,
        ;
        let grown: u128 = self.tokens as u128 + elapsed as u128 * self.fill_rate as u128;
        if grown <= full as u128 {
            grown as u64
        } else {
            full
        }
    }

    /// Answers one request at `now` milliseconds: refills for the time that
    /// has passed, and admits the request if a whole token is on hand.
    pub fn check(&mut self, now: u64) -> (admitted: bool)
        ensures
            admitted == old(self)@.admits(now as int),
            final(self)@ == old(self)@.after(now as int),
    {
        proof {
            use_type_invariant(&*self);
        }
        let on_hand = self.available(now);
        if on_hand >= UNITS {
            self.tokens = on_hand - UNITS;
            if now >= self.last_refill {
                self.last_refill = now;
            }
            true
        } else {
            false
        }
    }
}

} // verus!

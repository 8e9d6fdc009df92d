//! A token-bucket rate limiter for the outbound request budget.
//!
//! The service grants a small sustained request rate with a burst allowance,
//! and the same budget covers the HTTP calls and the WebSocket handshake.
//! The limiter is kept as plain data: a caller asks it, at its own notion of
//! "now", whether one more request may go out.  The embedding program turns a
//! refusal into a sleep of the hinted length and asks again; nothing here
//! blocks.
//!
//! All bookkeeping is in abstract time units.  One admission costs `period`
//! units of stored budget, the budget refills by one unit per elapsed time
//! unit, and at most `capacity = burst * period` units are ever stored.  With
//! `period` the reciprocal of the sustained rate, this is exactly a token
//! bucket with `burst` tokens of burst allowance.

use vstd::prelude::*;

verus! {

/// A token bucket, measured in abstract time units.
pub struct RateLimiter {
    /// How many time units of budget one admission costs (the reciprocal of
    /// the sustained rate).
    pub period: u64,
    /// The most budget the bucket ever stores; `burst * period` units.
    pub capacity: u64,
    /// The budget currently stored; never exceeds `capacity`.
    pub available: u64,
    /// The time at which `available` was last brought up to date.
    pub last: u64,
}

impl RateLimiter {
    /// The limiter's internal invariant.
    pub open spec fn wf(self) -> bool {
        &&& self.period >= 1
        &&& self.available <= self.capacity
    }

    /// The budget the bucket holds once refilled up to time `now`.
    pub open spec fn refilled(self, now: u64) -> int {
        let grown = self.available + now - self.last;
        if grown <= self.capacity {
            grown
        } else {
            self.capacity as int
        }
    }

    /// Whether a request asked for at time `now` is admitted.
    pub open spec fn admits(self, now: u64) -> bool {
        self.refilled(now) >= self.period
    }

    /// The limiter after one `try_acquire` at time `now`.
    pub open spec fn stepped(self, now: u64) -> RateLimiter {
        RateLimiter {
            available: if self.admits(now) {
                (self.refilled(now) - self.period) as u64
            } else {
                self.refilled(now) as u64
            },
            last: now,
            ..self
        }
    }

    /// Creates a full bucket admitting `burst` requests at once and one
    /// request per `period` time units sustained.
    pub fn new(burst: u64, period: u64) -> (r: RateLimiter)
        requires
            1 <= burst,
            1 <= period,
            burst * period <= u64::MAX,
        ensures
            r.wf(),
            r.period == period,
            r.capacity == burst * period,
            r.available == r.capacity,
            r.last == 0,
    {
        let capacity = burst * period;
        RateLimiter { period, capacity, available: capacity, last: 0 }
    }

    /// Refills the budget up to `now` and consumes one admission from it if
    /// it suffices, reporting whether it did.  Time must not run backwards
    /// between calls.
    pub fn try_acquire(&mut self, now: u64) -> (r: bool)
        requires
            old(self).wf(),
            old(self).last <= now,
        ensures
            final(self).wf(),
            r == old(self).admits(now),
            *final(self) == old(self).stepped(now),
    {
        let elapsed = now - self.last;
        let refilled = match self.available.checked_add(elapsed) {
            Some(grown) => if grown <= self.capacity {
                grown
            } else {
                self.capacity
            },
            None => self.capacity,
        };
        self.last = now;
        if refilled >= self.period {
            self.available = refilled - self.period;
            true
        } else {
            self.available = refilled;
            false
        }
    }

    /// How long a refused caller should wait before asking again: zero when
    /// a request would be admitted right now, and otherwise the time until
    /// the budget has grown to one admission.
    pub fn wait_hint(&self, now: u64) -> (r: u64)
        requires
            self.wf(),
            self.last <= now,
        ensures
            r as int == if self.admits(now) {
                0
            } else {
                self.period - self.refilled(now)
            },
            self.admits(now) <==> r == 0,
    {
        let elapsed = now - self.last;
        let refilled = match self.available.checked_add(elapsed) {
            Some(grown) => if grown <= self.capacity {
                grown
            } else {
                self.capacity
            },
            None => self.capacity,
        };
        if refilled >= self.period {
            0
        } else {
            self.period - refilled
        }
    }

    /// Whether a request at time `now` would be admitted, without consuming
    /// anything.
    pub fn is_ready(&self, now: u64) -> (r: bool)
        requires
            self.wf(),
            self.last <= now,
        ensures
            r == self.admits(now),
    {
        self.wait_hint(now) == 0
    }
}

/// Eventual admission: a refused caller that waits out the hint is let in.
/// Once at least `wait_hint`'s worth of time has passed with no admission in
/// between, the bucket has grown back one admission's budget, so a caller
/// that keeps asking is never dropped.  (The budget must be able to hold one
/// admission at all, which every bucket made by `new` can.)
pub proof fn lemma_wait_hint_suffices(s: RateLimiter, now: u64, later: u64)
    requires
        s.wf(),
        s.period <= s.capacity,
        s.last <= now <= later,
        !s.admits(now),
        later - now >= s.period - s.refilled(now),
    ensures
        s.admits(later),
{
}

/// The admission times a limiter trace may be asked about: nondecreasing,
/// and starting no earlier than the limiter's own clock.
pub open spec fn times_ok(s: RateLimiter, times: Seq<u64>) -> bool {
    &&& forall|i: int| 0 <= i < times.len() - 1 ==> #[trigger] times[i] <= times[i + 1]
    &&& times.len() > 0 ==> s.last <= times[0]
}

/// How many of a sequence of `try_acquire` calls, made at the given times,
/// are admitted inside the window `[lo, hi]`.
pub open spec fn admitted_in_window(s: RateLimiter, times: Seq<u64>, lo: int, hi: int) -> nat
    decreases times.len(),
{
    if times.len() == 0 {
        0
    } else {
        (if s.admits(times[0]) && lo <= times[0] <= hi {
            1nat
        } else {
            0nat
        }) + admitted_in_window(s.stepped(times[0]), times.skip(1), lo, hi)
    }
}

proof fn lemma_times_ok_step(s: RateLimiter, times: Seq<u64>)
    requires
        times.len() > 0,
        times_ok(s, times),
    ensures
        times_ok(s.stepped(times[0]), times.skip(1)),
        s.stepped(times[0]).last == times[0],
{
    let rest = times.skip(1);
    assert forall|i: int| 0 <= i < rest.len() - 1 implies #[trigger] rest[i] <= rest[i + 1] by {
        assert(times[i + 1] <= times[i + 2]);
    }
    if rest.len() > 0 {
        assert(times[0] <= times[1]);
    }
}

proof fn lemma_wf_step(s: RateLimiter, now: u64)
    requires
        s.wf(),
        s.last <= now,
    ensures
        s.stepped(now).wf(),
        s.stepped(now).period == s.period,
        s.stepped(now).capacity == s.capacity,
        s.stepped(now).available <= s.refilled(now),
        s.refilled(now) <= s.available + now - s.last,
        s.refilled(now) <= s.capacity,
{
}

/// No admission is counted once every remaining call comes after the window.
proof fn lemma_no_admissions_past_window(s: RateLimiter, times: Seq<u64>, lo: int, hi: int)
    requires
        s.wf(),
        times_ok(s, times),
        s.last > hi,
    ensures
        admitted_in_window(s, times, lo, hi) == 0,
    decreases times.len(),
{
    if times.len() > 0 {
        lemma_times_ok_step(s, times);
        lemma_no_admissions_past_window(s.stepped(times[0]), times.skip(1), lo, hi);
    }
}

proof fn lemma_token_bucket_aux(s: RateLimiter, times: Seq<u64>, lo: int, hi: int)
    requires
        s.wf(),
        times_ok(s, times),
        lo <= hi,
    ensures
        s.last < lo ==> admitted_in_window(s, times, lo, hi) * s.period <= s.capacity + (hi
            - lo),
        lo <= s.last <= hi ==> admitted_in_window(s, times, lo, hi) * s.period <= s.available
            + (hi - s.last),
        s.last > hi ==> admitted_in_window(s, times, lo, hi) == 0,
    decreases times.len(), 1int,
{
    if s.last > hi {
        lemma_no_admissions_past_window(s, times, lo, hi);
    } else if times.len() == 0 {
        assert(admitted_in_window(s, times, lo, hi) == 0);
        assert(admitted_in_window(s, times, lo, hi) * s.period == 0) by (nonlinear_arith)
            requires
                admitted_in_window(s, times, lo, hi) == 0,
        ;
    } else {
        lemma_token_bucket_body(s, times, lo, hi);
    }
}

proof fn lemma_token_bucket_body(s: RateLimiter, times: Seq<u64>, lo: int, hi: int)
    requires
        s.wf(),
        times_ok(s, times),
        lo <= hi,
        s.last <= hi,
        times.len() > 0,
    ensures
        s.last < lo ==> admitted_in_window(s, times, lo, hi) * s.period <= s.capacity + (hi
            - lo),
        lo <= s.last <= hi ==> admitted_in_window(s, times, lo, hi) * s.period <= s.available
            + (hi - s.last),
    decreases times.len(), 0int,
{
    let t = times[0];
    let s1 = s.stepped(t);
    let rest = times.skip(1);
    lemma_times_ok_step(s, times);
    lemma_wf_step(s, t);
    lemma_token_bucket_aux(s1, rest, lo, hi);
    let counted: nat = if s.admits(t) && lo <= t <= hi {
        1nat
    } else {
        0nat
    };
    let a = admitted_in_window(s, times, lo, hi);
    let a1 = admitted_in_window(s1, rest, lo, hi);
    assert(a == counted + a1);
    assert(a * s.period == counted * s.period + a1 * s.period) by (nonlinear_arith)
        requires
            a == counted + a1,
    ;
    if t > hi {
        // nothing more is ever counted
        assert(a1 == 0);
        if lo <= s.last {
            assert(a * s.period <= s.available + (hi - s.last));
        }
    } else if t < lo {
        // still before the window: the state keeps a full-or-less bucket
        assert(s.last < lo);
        assert(counted == 0);
        assert(a1 * s.period <= s.capacity + (hi - lo));
    } else {
        // an event inside the window
        assert(lo <= t <= hi);
        assert(a1 * s.period <= s1.available + (hi - t));
        if s.admits(t) {
            assert(counted == 1);
            assert(s1.available == s.refilled(t) - s.period);
            assert(a * s.period <= s.refilled(t) + (hi - t));
        } else {
            assert(counted == 0);
            assert(s1.available == s.refilled(t));
            assert(a * s.period <= s.refilled(t) + (hi - t));
        }
        if s.last < lo {
            // refills from before the window are capped by the capacity
            assert(s.refilled(t) <= s.capacity);
            assert(a * s.period <= s.capacity + (hi - lo));
        } else {
            assert(s.refilled(t) <= s.available + t - s.last);
            assert(a * s.period <= s.available + (hi - s.last));
        }
    }
}

/// The token-bucket law: however a sequence of `try_acquire` calls is timed,
/// the number admitted inside any window `[lo, hi]` is bounded by the burst
/// capacity plus the window length divided by the period.  Stated
/// multiplicatively: `admitted * period <= capacity + (hi - lo)`.
pub proof fn lemma_token_bucket_window(s: RateLimiter, times: Seq<u64>, lo: int, hi: int)
    requires
        s.wf(),
        times_ok(s, times),
        lo <= hi,
    ensures
        admitted_in_window(s, times, lo, hi) * s.period <= s.capacity + (hi - lo),
{
    lemma_token_bucket_aux(s, times, lo, hi);
    if lo <= s.last <= hi {
        assert(s.available <= s.capacity);
    }
}

} // verus!

//! Interval scheduler: tells an output whether its turn has come.

use vstd::prelude::*;

verus! {

/// The interval bucket that the instant `now` (seconds since the epoch) falls
/// into: `floor(now / interval)`.
pub open spec fn bucket(now: int, interval: int) -> int
    recommends
        interval > 0,
{
    now / interval
}

/// Whether moving from bucket `last` to bucket `current` counts as a tick: a
/// boundary was crossed forwards, or the clock jumped back by more than one
/// bucket.
pub open spec fn crosses(last: int, current: int) -> bool {
    current - last > 0 || current - last < -1
}

/// Whether a scheduler with the given interval and remembered bucket ticks
/// when polled at `now`. A zero or negative interval never ticks.
pub open spec fn fires(interval: int, last: int, now: int) -> bool {
    interval > 0 && crosses(last, bucket(now, interval))
}

/// The bucket that the scheduler remembers after being polled at `now`.
pub open spec fn next_bucket(interval: int, last: int, now: int) -> int {
    if fires(interval, last, now) {
        bucket(now, interval)
    } else {
        last
    }
}

/// How many ticks a scheduler reports when it is polled at each instant of
/// `times` in turn.
pub open spec fn ticks(interval: int, last: int, times: Seq<int>) -> nat
    decreases times.len(),
{
    if times.len() == 0 {
        0
    } else {
        let first: nat = if fires(interval, last, times[0]) { 1 } else { 0 };
        first + ticks(interval, next_bucket(interval, last, times[0]), times.drop_first())
    }
}

/// The instants never go backwards.
pub open spec fn non_decreasing(times: Seq<int>) -> bool {
    forall|i: int, j: int| 0 <= i <= j < times.len() ==> times[i] <= times[j]
}

/// Per-output interval timer.
pub struct TickSource {
    interval: i64,
    last_interval: i64,
}

impl TickSource {
    /// The configured interval in seconds; zero or negative disables the output.
    pub closed spec fn interval(&self) -> int {
        self.interval as int
    }

    /// The bucket of the most recent tick (or of construction).
    pub closed spec fn last_bucket(&self) -> int {
        self.last_interval as int
    }

    /// Whether a call of `process` at `now` reports a tick.
    pub open spec fn fires_at(&self, now: int) -> bool {
        fires(self.interval(), self.last_bucket(), now)
    }

    /// The remembered bucket after a call of `process` at `now`.
    pub open spec fn bucket_after(&self, now: int) -> int {
        next_bucket(self.interval(), self.last_bucket(), now)
    }

    /// A scheduler that starts in the bucket of `now`.
    pub fn new(interval: i64, now: i64) -> (r: TickSource)
        ensures
            r.interval() == interval,
            r.last_bucket() == (if interval > 0 { bucket(now as int, interval as int) } else { 0 }),
    {
        let last_interval: i64 = if interval > 0 {
            floor_div(now, interval)
        } else {
            0
        };
        TickSource { interval, last_interval }
    }

    /// Reports whether an interval boundary was crossed since the last tick,
    /// and if so remembers the new bucket.
    pub fn process(&mut self, now: i64) -> (ticked: bool)
        ensures
            ticked == old(self).fires_at(now as int),
            final(self).interval() == old(self).interval(),
            final(self).last_bucket() == old(self).bucket_after(now as int),
    {
        if self.interval > 0 {
            let current_interval: i64 = floor_div(now, self.interval);
            let ticked = if current_interval > self.last_interval {
                true
            } else {
                // current <= last: a tick only if more than one bucket back
                self.last_interval > i64::MIN && current_interval < self.last_interval - 1
            };
            if ticked {
                self.last_interval = current_interval;
            }
            ticked
        } else {
            false
        }
    }
}

/// `floor(a / b)` for a positive divisor.
pub fn floor_div(a: i64, b: i64) -> (q: i64)
    requires
        b > 0,
    ensures
        q == bucket(a as int, b as int),
{
    assert(i64::MIN <= a as int / b as int <= i64::MAX) by (nonlinear_arith)
        requires
            b > 0,
            i64::MIN <= a <= i64::MAX,
    ;
    match a.checked_div_euclid(b) {
        Some(q) => q,
        None => 0,
    }
}

/// A later instant never lies in an earlier bucket.
pub proof fn lemma_bucket_monotone(a: int, b: int, interval: int)
    requires
        interval > 0,
        a <= b,
    ensures
        bucket(a, interval) <= bucket(b, interval),
{
    vstd::arithmetic::div_mod::lemma_div_is_ordered(a, b, interval);
}

/// A disabled scheduler (interval zero or negative) reports no tick, whatever
/// instants it is polled at and whatever bucket it remembers.
pub proof fn lemma_disabled_never_ticks(interval: int, last: int, times: Seq<int>)
    requires
        interval <= 0,
    ensures
        ticks(interval, last, times) == 0,
        forall|now: int| !fires(interval, last, now),
    decreases times.len(),
{
    if times.len() > 0 {
        lemma_disabled_never_ticks(interval, next_bucket(interval, last, times[0]), times.drop_first());
    }
}

/// A scheduler built at `t1` ticks when first polled at any `t2` that lies in
/// a later bucket.
pub proof fn lemma_ticks_on_later_bucket(s: TickSource, t1: int, t2: int)
    requires
        s.interval() > 0,
        s.last_bucket() == bucket(t1, s.interval()),
        bucket(t2, s.interval()) > bucket(t1, s.interval()),
    ensures
        s.fires_at(t2),
        s.bucket_after(t2) == bucket(t2, s.interval()),
{
}

/// Right after a tick at `t`, polling at any instant of the same bucket does
/// not tick again.
pub proof fn lemma_no_second_tick_in_bucket(interval: int, last: int, t: int, u: int)
    requires
        bucket(u, interval) == bucket(t, interval),
        fires(interval, last, t),
    ensures
        !fires(interval, next_bucket(interval, last, t), u),
{
}

/// Under a clock that never goes backwards, polling at irregular instants
/// yields at most one tick per interval boundary crossed: the ticks number no
/// more than the buckets between the remembered one and that of the last poll.
pub proof fn lemma_at_most_one_tick_per_bucket(interval: int, last: int, times: Seq<int>)
    requires
        interval > 0,
        times.len() > 0,
        non_decreasing(times),
        last <= bucket(times[0], interval),
    ensures
        ticks(interval, last, times) <= bucket(times.last(), interval) - last,
    decreases times.len(),
{
    let rest = times.drop_first();
    let next = next_bucket(interval, last, times[0]);
    if rest.len() == 0 {
        assert(ticks(interval, next, rest) == 0);
    } else {
        assert(rest[0] == times[1]);
        assert(rest.last() == times.last());
        lemma_bucket_monotone(times[0], times[1], interval);
        assert(non_decreasing(rest)) by {
            assert forall|i: int, j: int| 0 <= i <= j < rest.len() implies rest[i] <= rest[j] by {
                assert(rest[i] == times[i + 1]);
                assert(rest[j] == times[j + 1]);
            }
        }
        lemma_at_most_one_tick_per_bucket(interval, next, rest);
    }
}

/// Under a clock that never goes backwards, a scheduler that is polled up to
/// an instant in a later bucket than the one it remembers has ticked at least
/// once.
pub proof fn lemma_at_least_one_tick(interval: int, last: int, times: Seq<int>)
    requires
        interval > 0,
        times.len() > 0,
        non_decreasing(times),
        last <= bucket(times[0], interval),
        bucket(times.last(), interval) > last,
    ensures
        ticks(interval, last, times) >= 1,
    decreases times.len(),
{
    let rest = times.drop_first();
    if !fires(interval, last, times[0]) {
        assert(rest.len() > 0);
        assert(rest[0] == times[1]);
        assert(rest.last() == times.last());
        lemma_bucket_monotone(times[0], times[1], interval);
        assert(non_decreasing(rest)) by {
            assert forall|i: int, j: int| 0 <= i <= j < rest.len() implies rest[i] <= rest[j] by {
                assert(rest[i] == times[i + 1]);
                assert(rest[j] == times[j + 1]);
            }
        }
        lemma_at_least_one_tick(interval, last, rest);
    }
}

} // verus!

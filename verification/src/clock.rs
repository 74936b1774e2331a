//! Simulation clock: maps elapsed wall-clock time to simulated time.
//!
//! A run fixes a simulated start instant and anchors it to the wall clock
//! at initialization. From then on, the current simulated time is the
//! start plus however much wall-clock time has elapsed. Timestamps are
//! seconds since the Unix epoch; the caller reads the wall clock and
//! hands the reading in, so every method here is a pure function.

use vstd::prelude::*;

verus! {

/// Simulation clock, immutable after creation.
#[derive(Clone, Copy, PartialEq, Eq, Structural, Debug)]
pub struct SimClock {
    /// Simulated instant at which the run begins (epoch seconds).
    pub start: i64,
    /// Wall-clock reading taken when the run began (epoch seconds).
    pub wall_anchor: i64,
}

/// Simulated time corresponding to the wall-clock reading `wall_now`.
pub open spec fn spec_now(c: SimClock, wall_now: i64) -> int {
    c.start + (wall_now - c.wall_anchor)
}

impl SimClock {
    /// Anchors simulated time `start` to the wall-clock reading `wall_anchor`.
    pub fn new(start: i64, wall_anchor: i64) -> (c: SimClock)
        ensures
            c.start == start,
            c.wall_anchor == wall_anchor,
    {
        SimClock { start, wall_anchor }
    }

    /// Current simulated time, given the current wall-clock reading.
    pub fn now(&self, wall_now: i64) -> (t: i64)
        requires
            self.wall_anchor <= wall_now,
            wall_now - self.wall_anchor <= i64::MAX,
            spec_now(*self, wall_now) <= i64::MAX,
        ensures
            t == spec_now(*self, wall_now),
    {
        self.start + (wall_now - self.wall_anchor)
    }

    /// True once the simulated time for `wall_now` has reached
    /// `self.start + duration_s`: the run's termination instant.
    pub fn is_over(&self, duration_s: u32, wall_now: i64) -> (over: bool)
        requires
            self.wall_anchor <= wall_now,
            wall_now - self.wall_anchor <= i64::MAX,
            spec_now(*self, wall_now) <= i64::MAX,
            self.start + duration_s <= i64::MAX,
        ensures
            over == (spec_now(*self, wall_now) >= self.start + duration_s),
    {
        self.now(wall_now) >= self.start + (duration_s as i64)
    }
}

/// Simulated time never decreases as wall-clock time advances.
pub proof fn lemma_now_monotonic(c: SimClock, w1: i64, w2: i64)
    requires
        w1 <= w2,
    ensures
        spec_now(c, w1) <= spec_now(c, w2),
{
}

/// A run over a fixed duration terminates: once the wall clock has
/// advanced by `duration_s` past the anchor, `is_over` holds, and it
/// keeps holding at every later wall-clock reading, whatever the
/// fluctuations in how often the clock is sampled.
pub proof fn lemma_run_terminates(c: SimClock, duration_s: u32, wall_now: i64)
    requires
        wall_now >= c.wall_anchor + duration_s,
    ensures
        spec_now(c, wall_now) >= c.start + duration_s,
{
}

} // verus!

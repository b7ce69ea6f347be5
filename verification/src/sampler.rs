//! Random waits drawn from a bounded range.

use crate::time::{TimeSpan, MAX_NANOS, NANOS_PER_SEC};
use rand::distributions::Uniform;
use rand::Rng;
use std::time::Duration;
use vstd::prelude::*;

verus! {

/// A half-open range of waits as plain nanoseconds: `min` is in it, `max`
/// is not.
pub struct Interval {
    pub min: nat,
    pub max: nat,
}

impl Interval {
    /// Whether `wait` lies in the range.
    pub open spec fn contains(self, wait: nat) -> bool {
        self.min <= wait < self.max
    }
}

/// The half-open range `[min, max)` from which waits are drawn. It is never
/// empty.
#[derive(Clone, Copy, Debug, PartialEq, Eq, Structural)]
pub struct WaitRange {
    min: TimeSpan,
    max: TimeSpan,
}

impl View for WaitRange {
    type V = Interval;

    closed spec fn view(&self) -> Interval {
        Interval { min: self.min@, max: self.max@ }
    }
}

/// One draw from `rand::distributions::Uniform::new(low, high)` over
/// `std::time::Duration`, made through `rand::Rng::sample` on the generator
/// that `rand::thread_rng()` hands out. Each span crosses as its whole
/// seconds and the nanoseconds below a second.
///
/// Taken on trust: the draw is no shorter than `low` and shorter than
/// `high`, and its sub-second part is below one second. `Uniform::new`
/// panics unless `low` is shorter than `high`, and `Duration::new` where a
/// sub-second part of a second or more carries past `u64::MAX` seconds,
/// which is why both are asked of the caller. Nothing is claimed about which
/// value in the range comes back, nor about how the values are spread.
/// `thread_rng` panics where the operating system has no entropy to seed it
/// with; no argument can rule that out.
#[verifier::external_body]
fn draw_uniform(low_secs: u64, low_subsec: u32, high_secs: u64, high_subsec: u32) -> (r: (
    u64,
    u32,
))
    requires
        low_subsec < NANOS_PER_SEC,
        high_subsec < NANOS_PER_SEC,
        low_secs * NANOS_PER_SEC + low_subsec < high_secs * NANOS_PER_SEC + high_subsec,
    ensures
        r.1 < NANOS_PER_SEC,
        low_secs * NANOS_PER_SEC + low_subsec <= r.0 * NANOS_PER_SEC + r.1,
        r.0 * NANOS_PER_SEC + r.1 < high_secs * NANOS_PER_SEC + high_subsec,
{
    let range = Uniform::new(
        Duration::new(low_secs, low_subsec),
        Duration::new(high_secs, high_subsec),
    );
    let wait = rand::thread_rng().sample(range);
    (wait.as_secs(), wait.subsec_nanos())
}

impl WaitRange {
    /// A range has room for at least one wait, and both its ends are spans.
    #[verifier::type_invariant]
    pub open spec fn wf(self) -> bool {
        self@.min < self@.max <= MAX_NANOS
    }

    /// The range from `min` up to but not including `max`, or `None` where
    /// that range is empty.
    pub fn new(min: TimeSpan, max: TimeSpan) -> (r: Option<WaitRange>)
        ensures
            r is Some <==> min@ < max@,
            r matches Some(range) ==> range@ == (Interval { min: min@, max: max@ }),
    {
        if min.as_nanos() < max.as_nanos() {
            Some(WaitRange { min, max })
        } else {
            None
        }
    }

    /// The long idle window between repeats of one clip: up to five minutes.
    pub fn idle() -> (r: WaitRange)
        ensures
            r@ == (Interval { min: 0, max: 300 * NANOS_PER_SEC as nat }),
    {
        WaitRange { min: TimeSpan::zero(), max: TimeSpan::from_secs(300) }
    }

    /// The short window between the end of a clip and its next start: up to
    /// five seconds.
    pub fn brief() -> (r: WaitRange)
        ensures
            r@ == (Interval { min: 0, max: 5 * NANOS_PER_SEC as nat }),
    {
        WaitRange { min: TimeSpan::zero(), max: TimeSpan::from_secs(5) }
    }

    /// The shortest wait in the range.
    pub fn min(&self) -> (r: TimeSpan)
        ensures
            r@ == self@.min,
    {
        self.min
    }

    /// The bound that every wait in the range stays below.
    pub fn max(&self) -> (r: TimeSpan)
        ensures
            r@ == self@.max,
    {
        self.max
    }

    /// Whether `wait` lies in the range.
    pub fn contains(&self, wait: TimeSpan) -> (r: bool)
        ensures
            r == self@.contains(wait@),
    {
        self.min.as_nanos() <= wait.as_nanos() && wait.as_nanos() < self.max.as_nanos()
    }

    /// Draws the next wait from the thread's random generator, which the
    /// system seeds anew in every process. Every draw lies in the range.
    pub fn next_wait(&self) -> (wait: TimeSpan)
        ensures
            self@.contains(wait@),
    {
        proof {
            use_type_invariant(self);
            use_type_invariant(self.min);
            use_type_invariant(self.max);
        }
        let (secs, subsec) = draw_uniform(
            self.min.as_secs(),
            self.min.subsec_nanos(),
            self.max.as_secs(),
            self.max.subsec_nanos(),
        );
        let wait = TimeSpan::new(secs, subsec);
        wait.unwrap()
    }
}

} // verus!

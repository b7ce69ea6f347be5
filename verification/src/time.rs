//! Lengths of time with nanosecond resolution.

use vstd::prelude::*;

verus! {

/// Nanoseconds in one second.
pub const NANOS_PER_SEC: u128 = 1_000_000_000;

/// The longest span there is, in nanoseconds: `u64::MAX` whole seconds and
/// 999,999,999 nanoseconds on top.
pub const MAX_NANOS: u128 = 18_446_744_073_709_551_615_999_999_999;

/// A non-negative length of time, counted in nanoseconds.
///
/// Every span lies between zero and [`MAX_NANOS`], so that it splits into
/// whole seconds that fit a `u64` and a sub-second part below one second.
#[derive(Clone, Copy, Debug, PartialEq, Eq, Structural)]
pub struct TimeSpan {
    nanos: u128,
}

impl View for TimeSpan {
    type V = nat;

    /// The span in nanoseconds.
    closed spec fn view(&self) -> nat {
        self.nanos as nat
    }
}

impl TimeSpan {
    /// No span exceeds [`MAX_NANOS`].
    #[verifier::type_invariant]
    pub open spec fn wf(self) -> bool {
        self@ <= MAX_NANOS
    }

    /// The span of `n` nanoseconds, for `n` up to [`MAX_NANOS`].
    pub closed spec fn of(n: nat) -> TimeSpan {
        TimeSpan { nanos: n as u128 }
    }

    /// [`TimeSpan::of`] and the view undo each other.
    pub proof fn lemma_of_view(n: nat)
        requires
            n <= MAX_NANOS,
        ensures
            TimeSpan::of(n)@ == n,
            TimeSpan::of(n).wf(),
    {
    }

    /// Spans are equal exactly when they count the same nanoseconds.
    pub proof fn lemma_view_injective(a: TimeSpan, b: TimeSpan)
        ensures
            a@ == b@ <==> a == b,
    {
    }

    /// The span of `secs` whole seconds plus `subsec` nanoseconds, or `None`
    /// where that is longer than [`MAX_NANOS`].
    pub fn new(secs: u64, subsec: u32) -> (r: Option<TimeSpan>)
        ensures
            r is Some <==> secs * NANOS_PER_SEC + subsec <= MAX_NANOS,
            r matches Some(t) ==> t@ == secs * NANOS_PER_SEC + subsec,
    {
        let total: u128 = (secs as u128) * NANOS_PER_SEC + (subsec as u128);
        if total <= MAX_NANOS {
            Some(TimeSpan { nanos: total })
        } else {
            None
        }
    }

    /// The empty span.
    pub fn zero() -> (r: TimeSpan)
        ensures
            r@ == 0,
    {
        TimeSpan { nanos: 0 }
    }

    /// The longest span.
    pub fn max() -> (r: TimeSpan)
        ensures
            r@ == MAX_NANOS,
    {
        TimeSpan { nanos: MAX_NANOS }
    }

    /// The span of `secs` whole seconds.
    pub fn from_secs(secs: u64) -> (r: TimeSpan)
        ensures
            r@ == secs * NANOS_PER_SEC,
    {
        TimeSpan { nanos: (secs as u128) * NANOS_PER_SEC }
    }

    /// The span of `micros` microseconds.
    pub fn from_micros(micros: u64) -> (r: TimeSpan)
        ensures
            r@ == micros * 1000,
    {
        TimeSpan { nanos: (micros as u128) * 1000 }
    }

    /// The span in nanoseconds.
    pub fn as_nanos(&self) -> (r: u128)
        ensures
            r == self@,
            r <= MAX_NANOS,
    {
        proof {
            use_type_invariant(self);
        }
        self.nanos
    }

    /// The whole seconds in the span.
    pub fn as_secs(&self) -> (r: u64)
        ensures
            r == self@ / (NANOS_PER_SEC as nat),
    {
        proof {
            use_type_invariant(self);
        }
        (self.nanos / NANOS_PER_SEC) as u64
    }

    /// What is left of the span below a whole second, in nanoseconds.
    pub fn subsec_nanos(&self) -> (r: u32)
        ensures
            r == self@ % (NANOS_PER_SEC as nat),
            r < NANOS_PER_SEC,
    {
        (self.nanos % NANOS_PER_SEC) as u32
    }

    /// The sum of two spans, or `None` where it is longer than [`MAX_NANOS`].
    pub fn checked_add(self, rhs: TimeSpan) -> (r: Option<TimeSpan>)
        ensures
            r is Some <==> self@ + rhs@ <= MAX_NANOS,
            r matches Some(t) ==> t@ == self@ + rhs@,
    {
        proof {
            use_type_invariant(self);
            use_type_invariant(rhs);
        }
        let total: u128 = self.nanos + rhs.nanos;
        if total <= MAX_NANOS {
            Some(TimeSpan { nanos: total })
        } else {
            None
        }
    }

    /// What is left of this span after taking `rhs` away, or `None` where
    /// `rhs` is the longer of the two.
    pub fn checked_sub(self, rhs: TimeSpan) -> (r: Option<TimeSpan>)
        ensures
            r is Some <==> rhs@ <= self@,
            r matches Some(t) ==> t@ == self@ - rhs@,
    {
        proof {
            use_type_invariant(self);
        }
        if rhs.nanos <= self.nanos {
            Some(TimeSpan { nanos: self.nanos - rhs.nanos })
        } else {
            None
        }
    }
}

} // verus!

//! Monotonic instants and spans measured in nanoseconds.
//!
//! A `TimeSpan` covers the same range as a standard duration (whole seconds up to
//! `u64::MAX` plus a sub-second part); a `Moment` is a reading of the monotonic clock,
//! or such a reading advanced by a span.
use vstd::prelude::*;

verus! {

/// Nanoseconds in one second.
pub const NANOS_PER_SEC: u128 = 1_000_000_000;

/// Nanoseconds in one millisecond.
pub const NANOS_PER_MILLI: u128 = 1_000_000;

/// The largest span: `u64::MAX` seconds and 999_999_999 nanoseconds.
pub const SPAN_MAX_NANOS: u128 = 18_446_744_073_709_551_615_999_999_999;

/// Readings of the monotonic clock stay below this bound (whole seconds fit in `i64`).
pub const CLOCK_MAX_NANOS: u128 = 9_223_372_036_854_775_808_000_000_000;

/// The largest moment: a clock reading advanced by the largest span.
pub const MOMENT_MAX_NANOS: u128 = 27_670_116_110_564_327_423_999_999_999;

/// A non-negative length of time.
#[derive(Clone, Copy, Debug, PartialEq, Eq, Structural, PartialOrd, Ord, Hash)]
pub struct TimeSpan {
    nanos: u128,
}

/// A point on the monotonic clock.
#[derive(Clone, Copy, Debug, PartialEq, Eq, Structural, PartialOrd, Ord, Hash)]
pub struct Moment {
    nanos: u128,
}

impl TimeSpan {
    #[verifier::type_invariant]
    spec fn span_in_range(self) -> bool {
        self.nanos <= SPAN_MAX_NANOS
    }

    /// The length in nanoseconds.
    pub closed spec fn spec_nanos(self) -> nat {
        self.nanos as nat
    }

    /// The empty span.
    pub fn zero() -> (r: TimeSpan)
        ensures
            r.spec_nanos() == 0,
    {
        TimeSpan { nanos: 0 }
    }

    /// A span of whole milliseconds.
    pub fn from_millis(millis: u64) -> (r: TimeSpan)
        ensures
            r.spec_nanos() == millis * NANOS_PER_MILLI,
    {
        assert(millis * NANOS_PER_MILLI <= SPAN_MAX_NANOS) by (nonlinear_arith)
            requires
                millis <= u64::MAX,
        ;
        TimeSpan { nanos: (millis as u128) * NANOS_PER_MILLI }
    }

    /// A span of whole seconds.
    pub fn from_secs(secs: u64) -> (r: TimeSpan)
        ensures
            r.spec_nanos() == secs * NANOS_PER_SEC,
    {
        assert(secs * NANOS_PER_SEC <= SPAN_MAX_NANOS) by (nonlinear_arith)
            requires
                secs <= u64::MAX,
        ;
        TimeSpan { nanos: (secs as u128) * NANOS_PER_SEC }
    }

    /// A span of nanoseconds; `None` beyond the largest span.
    pub fn from_nanos(nanos: u128) -> (r: Option<TimeSpan>)
        ensures
            r is Some <==> nanos <= SPAN_MAX_NANOS,
            r matches Some(span) ==> span.spec_nanos() == nanos,
    {
        if nanos <= SPAN_MAX_NANOS {
            Some(TimeSpan { nanos })
        } else {
            None
        }
    }

    /// The length in nanoseconds.
    pub fn as_nanos(&self) -> (r: u128)
        ensures
            r == self.spec_nanos(),
            r <= SPAN_MAX_NANOS,
    {
        proof {
            use_type_invariant(self);
        }
        self.nanos
    }

    /// The length in whole milliseconds, rounded down.
    pub fn as_millis(&self) -> (r: u128)
        ensures
            r == self.spec_nanos() / NANOS_PER_MILLI as nat,
    {
        self.nanos / NANOS_PER_MILLI
    }

    /// Whether the span is empty.
    pub fn is_zero(&self) -> (r: bool)
        ensures
            r == (self.spec_nanos() == 0),
    {
        self.nanos == 0
    }

    /// `self * factor`, or the largest span where that would exceed it.
    pub fn saturating_mul(&self, factor: u32) -> (r: TimeSpan)
        ensures
            r.spec_nanos() == if self.spec_nanos() * (factor as nat) <= SPAN_MAX_NANOS {
                self.spec_nanos() * (factor as nat)
            } else {
                SPAN_MAX_NANOS as nat
            },
    {
        proof {
            use_type_invariant(self);
        }
        let f = factor as u128;
        assert(self.nanos * f <= u128::MAX) by (nonlinear_arith)
            requires
                self.nanos <= SPAN_MAX_NANOS,
                f <= u32::MAX,
        ;
        let product = self.nanos * f;
        if product <= SPAN_MAX_NANOS {
            TimeSpan { nanos: product }
        } else {
            TimeSpan { nanos: SPAN_MAX_NANOS }
        }
    }

    /// The shorter of two spans.
    pub fn min(self, other: TimeSpan) -> (r: TimeSpan)
        ensures
            r.spec_nanos() == if self.spec_nanos() <= other.spec_nanos() {
                self.spec_nanos()
            } else {
                other.spec_nanos()
            },
    {
        if self.nanos <= other.nanos {
            self
        } else {
            other
        }
    }
}

impl Moment {
    #[verifier::type_invariant]
    spec fn moment_in_range(self) -> bool {
        self.nanos <= MOMENT_MAX_NANOS
    }

    /// Nanoseconds since the clock's origin.
    pub closed spec fn spec_nanos(self) -> nat {
        self.nanos as nat
    }

    /// The moment `nanos` after this one.
    pub closed spec fn spec_plus(self, nanos: nat) -> Moment {
        Moment { nanos: (self.nanos + nanos) as u128 }
    }

    /// A moment advanced within range lies that far ahead.
    pub proof fn lemma_plus(self, nanos: nat)
        requires
            self.spec_nanos() + nanos <= MOMENT_MAX_NANOS,
        ensures
            self.spec_plus(nanos).spec_nanos() == self.spec_nanos() + nanos,
    {
    }

    /// Whether `span` can be added to this moment.
    pub open spec fn can_add(self, span: TimeSpan) -> bool {
        self.spec_nanos() + span.spec_nanos() <= MOMENT_MAX_NANOS
    }

    /// A moment at the given nanosecond count; `None` beyond the largest moment.
    pub fn from_nanos(nanos: u128) -> (r: Option<Moment>)
        ensures
            r is Some <==> nanos <= MOMENT_MAX_NANOS,
            r matches Some(m) ==> m.spec_nanos() == nanos,
    {
        if nanos <= MOMENT_MAX_NANOS {
            Some(Moment { nanos })
        } else {
            None
        }
    }

    /// A reading of the clock given as whole seconds and a sub-second part.
    pub fn from_clock_reading(secs: u64, subsec_nanos: u32) -> (r: Moment)
        requires
            secs < 9_223_372_036_854_775_808,
            subsec_nanos < 1_000_000_000,
        ensures
            r.spec_nanos() == secs * NANOS_PER_SEC + subsec_nanos,
            r.spec_nanos() < CLOCK_MAX_NANOS,
    {
        assert(secs * NANOS_PER_SEC + subsec_nanos < CLOCK_MAX_NANOS) by (nonlinear_arith)
            requires
                secs < 9_223_372_036_854_775_808,
                subsec_nanos < 1_000_000_000,
        ;
        Moment { nanos: (secs as u128) * NANOS_PER_SEC + (subsec_nanos as u128) }
    }

    /// Nanoseconds since the clock's origin.
    pub fn as_nanos(&self) -> (r: u128)
        ensures
            r == self.spec_nanos(),
            r <= MOMENT_MAX_NANOS,
    {
        proof {
            use_type_invariant(self);
        }
        self.nanos
    }

    /// `self + span`; `None` beyond the largest moment.
    pub fn checked_add(&self, span: TimeSpan) -> (r: Option<Moment>)
        ensures
            r is Some <==> self.can_add(span),
            r matches Some(m) ==> m.spec_nanos() == self.spec_nanos() + span.spec_nanos(),
    {
        proof {
            use_type_invariant(self);
            use_type_invariant(&span);
        }
        let sum = self.nanos + span.nanos;
        if sum <= MOMENT_MAX_NANOS {
            Some(Moment { nanos: sum })
        } else {
            None
        }
    }

    /// `self + span`.
    pub fn add(&self, span: TimeSpan) -> (r: Moment)
        requires
            self.can_add(span),
        ensures
            r.spec_nanos() == self.spec_nanos() + span.spec_nanos(),
            r == self.spec_plus(span.spec_nanos()),
    {
        proof {
            use_type_invariant(self);
            use_type_invariant(&span);
        }
        Moment { nanos: self.nanos + span.nanos }
    }

    /// A reading of the clock advanced by `span`: such a reading has room for any span.
    pub fn advanced_by(&self, span: TimeSpan) -> (r: Moment)
        requires
            self.spec_nanos() < CLOCK_MAX_NANOS,
        ensures
            r.spec_nanos() == self.spec_nanos() + span.spec_nanos(),
            r == self.spec_plus(span.spec_nanos()),
    {
        proof {
            use_type_invariant(&span);
        }
        self.add(span)
    }

    /// `self - span`; `None` before the clock's origin.
    pub fn checked_sub(&self, span: TimeSpan) -> (r: Option<Moment>)
        ensures
            r is Some <==> span.spec_nanos() <= self.spec_nanos(),
            r matches Some(m) ==> m.spec_nanos() == self.spec_nanos() - span.spec_nanos(),
    {
        proof {
            use_type_invariant(self);
        }
        if span.nanos <= self.nanos {
            Some(Moment { nanos: self.nanos - span.nanos })
        } else {
            None
        }
    }

    /// Whether `self` is at or before `other`.
    pub fn is_at_or_before(&self, other: &Moment) -> (r: bool)
        ensures
            r == (self.spec_nanos() <= other.spec_nanos()),
    {
        self.nanos <= other.nanos
    }

    /// The span from `earlier` to `self`; `None` when `earlier` is later, or when the
    /// distance exceeds the largest span.
    pub fn checked_duration_since(&self, earlier: &Moment) -> (r: Option<TimeSpan>)
        ensures
            r is Some <==> earlier.spec_nanos() <= self.spec_nanos() && self.spec_nanos()
                - earlier.spec_nanos() <= SPAN_MAX_NANOS,
            r matches Some(span) ==> span.spec_nanos() == self.spec_nanos()
                - earlier.spec_nanos(),
    {
        if earlier.nanos <= self.nanos && self.nanos - earlier.nanos <= SPAN_MAX_NANOS {
            Some(TimeSpan { nanos: self.nanos - earlier.nanos })
        } else {
            None
        }
    }
}

/// Reads `CLOCK_MONOTONIC` with `rustix::time::clock_gettime`. The contract claims only
/// what rustix documents of the returned `Timespec`: the nanosecond field lies in
/// `0..1_000_000_000`. Nothing is claimed of the seconds field, nor that two readings
/// are ordered. rustix documents the call as infallible; its Linux backend still
/// asserts that the kernel call succeeded and panics otherwise, which happens only on
/// unusual kernel configurations. The call takes no argument, so no precondition can
/// rule that out.
#[verifier::external_body]
fn read_monotonic_clock() -> (r: (i64, i64))
    ensures
        0 <= r.1 < 1_000_000_000,
{
    let now = rustix::time::clock_gettime(rustix::time::ClockId::Monotonic);
    (now.tv_sec, now.tv_nsec)
}

/// The current reading of the monotonic clock. A reading before the clock's origin,
/// which Linux never gives, is taken as the origin.
pub fn now() -> (r: Moment)
    ensures
        r.spec_nanos() < CLOCK_MAX_NANOS,
{
    let (secs, nanos) = read_monotonic_clock();
    let secs: u64 = if secs < 0 {
        0
    } else {
        secs as u64
    };
    Moment::from_clock_reading(secs, nanos as u32)
}

} // verus!

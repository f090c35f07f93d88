//! Spans of time, measured exactly like `std::time::Duration`, and points in
//! time measured as the span since an epoch that the caller chooses.
use vstd::prelude::*;

verus! {

/// Nanoseconds in one second.
pub const NANOS_PER_SEC: u128 = 1_000_000_000;

/// The largest span a `Duration` can hold, in nanoseconds.
pub open spec fn max_span_nanos() -> nat {
    (u64::MAX as nat) * 1_000_000_000 + 999_999_999
}

/// A span of time with nanosecond precision, ranging over the same values as
/// `std::time::Duration`.
#[derive(Debug, Clone, Copy)]
pub struct TimeSpan {
    nanos: u128,
}

impl TimeSpan {
    /// The span fits in a `Duration`.
    #[verifier::type_invariant]
    pub closed spec fn well_formed(self) -> bool {
        self.nanos <= max_span_nanos()
    }

    /// The span in nanoseconds.
    pub closed spec fn total_nanos(self) -> nat {
        self.nanos as nat
    }

    /// Whole seconds of the span.
    pub open spec fn whole_secs(self) -> nat {
        self.total_nanos() / 1_000_000_000
    }

    /// The empty span.
    pub fn zero() -> (span: TimeSpan)
        ensures
            span.total_nanos() == 0,
    {
        TimeSpan { nanos: 0 }
    }

    /// A span of `secs` seconds and `subsec_nanos` nanoseconds.
    pub fn from_parts(secs: u64, subsec_nanos: u32) -> (span: TimeSpan)
        requires
            subsec_nanos < 1_000_000_000,
        ensures
            span.total_nanos() == secs * 1_000_000_000 + subsec_nanos,
    {
        let nanos: u128 = (secs as u128) * NANOS_PER_SEC + (subsec_nanos as u128);
        TimeSpan { nanos }
    }

    /// A span of whole seconds.
    pub fn from_secs(secs: u64) -> (span: TimeSpan)
        ensures
            span.total_nanos() == secs * 1_000_000_000,
    {
        TimeSpan::from_parts(secs, 0)
    }

    /// Whole seconds, as `Duration::as_secs`.
    pub fn as_secs(&self) -> (secs: u64)
        ensures
            secs == self.whole_secs(),
    {
        proof {
            use_type_invariant(self);
        }
        (self.nanos / NANOS_PER_SEC) as u64
    }

    /// The nanoseconds beyond the whole seconds, as `Duration::subsec_nanos`.
    pub fn subsec_nanos(&self) -> (nanos: u32)
        ensures
            nanos == self.total_nanos() % 1_000_000_000,
    {
        (self.nanos % NANOS_PER_SEC) as u32
    }

    /// The span in nanoseconds, as `Duration::as_nanos`.
    pub fn as_nanos(&self) -> (nanos: u128)
        ensures
            nanos == self.total_nanos(),
            nanos <= max_span_nanos(),
    {
        proof {
            use_type_invariant(self);
        }
        self.nanos
    }

    /// `self < other`.
    pub fn is_shorter_than(&self, other: &TimeSpan) -> (res: bool)
        ensures
            res == (self.total_nanos() < other.total_nanos()),
    {
        self.nanos < other.nanos
    }

    /// `self + other`, or `None` where `Duration` addition would overflow.
    pub fn checked_add(&self, other: &TimeSpan) -> (sum: Option<TimeSpan>)
        ensures
            match sum {
                Some(s) => s.total_nanos() == self.total_nanos() + other.total_nanos(),
                None => self.total_nanos() + other.total_nanos() > max_span_nanos(),
            },
    {
        proof {
            use_type_invariant(self);
            use_type_invariant(other);
        }
        let total: u128 = self.nanos + other.nanos;
        if total <= u64::MAX as u128 * NANOS_PER_SEC + 999_999_999 {
            Some(TimeSpan { nanos: total })
        } else {
            None
        }
    }

    /// `self - other`, or zero when `other` is longer, as `Duration::saturating_sub`
    /// and `Instant::duration_since`.
    pub fn saturating_sub(&self, other: &TimeSpan) -> (diff: TimeSpan)
        ensures
            diff.total_nanos() == if self.total_nanos() >= other.total_nanos() {
                (self.total_nanos() - other.total_nanos()) as nat
            } else {
                0
            },
    {
        proof {
            use_type_invariant(self);
        }
        if self.nanos >= other.nanos {
            TimeSpan { nanos: self.nanos - other.nanos }
        } else {
            TimeSpan { nanos: 0 }
        }
    }
}

/// Splitting a span undoes building it from parts: the whole seconds and the
/// nanoseconds beyond them are the parts it was made of.
pub proof fn lemma_span_parts_round_trip(span: TimeSpan, secs: u64, subsec_nanos: u32)
    requires
        subsec_nanos < 1_000_000_000,
        span.total_nanos() == secs * 1_000_000_000 + subsec_nanos,
    ensures
        span.whole_secs() == secs,
        span.total_nanos() % 1_000_000_000 == subsec_nanos,
{
    vstd::arithmetic::div_mod::lemma_fundamental_div_mod_converse(
        span.total_nanos() as int,
        1_000_000_000,
        secs as int,
        subsec_nanos as int,
    );
}

/// Every span fits in a `Duration`.
pub proof fn lemma_span_bounded(span: TimeSpan)
    requires
        span.well_formed(),
    ensures
        span.total_nanos() <= max_span_nanos(),
{
}

} // verus!

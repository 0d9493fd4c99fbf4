//! Spans of time with nanosecond resolution.

use vstd::prelude::*;

verus! {

/// Nanoseconds in one second.
pub const NANOS_PER_SEC: u32 = 1_000_000_000;

/// Nanoseconds in one millisecond.
pub const NANOS_PER_MILLI: u32 = 1_000_000;

/// Milliseconds in one second.
pub const MILLIS_PER_SEC: u64 = 1_000;

/// A non-negative span of time: whole seconds and the nanoseconds of the
/// second that has begun. The nanosecond part is always below one second,
/// so each span has exactly one representation.
#[derive(Clone, Copy, Debug, PartialEq, Eq, Structural)]
pub struct TimeSpan {
    secs: u64,
    nanos: u32,
}

impl TimeSpan {
    #[verifier::type_invariant]
    spec fn canonical(self) -> bool {
        self.nanos < NANOS_PER_SEC
    }

    /// The whole seconds of the span.
    pub closed spec fn secs(self) -> u64 {
        self.secs
    }

    /// The nanoseconds beyond the whole seconds.
    pub closed spec fn nanos(self) -> u32 {
        self.nanos
    }

    /// The span of `secs` seconds and `nanos` nanoseconds.
    pub closed spec fn of(secs: u64, nanos: u32) -> TimeSpan {
        TimeSpan { secs, nanos }
    }

    /// The length of the span in nanoseconds.
    pub open spec fn total_nanos(self) -> nat {
        (self.secs() * NANOS_PER_SEC + self.nanos()) as nat
    }

    /// A span of `secs` seconds and `nanos` nanoseconds. Nanoseconds from one
    /// second up are carried into the seconds; `None` when the seconds then
    /// no longer fit.
    pub fn new(secs: u64, nanos: u32) -> (span: Option<TimeSpan>)
        ensures
            span is Some <==> secs + nanos / NANOS_PER_SEC <= u64::MAX,
            span matches Some(s) ==> {
                &&& s == TimeSpan::of((secs + nanos / NANOS_PER_SEC) as u64, nanos % NANOS_PER_SEC)
                &&& s.secs() == secs + nanos / NANOS_PER_SEC
                &&& s.nanos() == nanos % NANOS_PER_SEC
                &&& s.total_nanos() == secs * NANOS_PER_SEC + nanos
            },
    {
        let carry: u64 = (nanos / NANOS_PER_SEC) as u64;
        match secs.checked_add(carry) {
            Some(whole) => Some(TimeSpan { secs: whole, nanos: nanos % NANOS_PER_SEC }),
            None => None,
        }
    }

    /// A span of whole seconds.
    pub fn from_secs(secs: u64) -> (span: TimeSpan)
        ensures
            span == TimeSpan::of(secs, 0),
            span.secs() == secs,
            span.nanos() == 0,
            span.total_nanos() == secs * NANOS_PER_SEC,
    {
        TimeSpan { secs, nanos: 0 }
    }

    /// A span of whole milliseconds.
    pub fn from_millis(millis: u64) -> (span: TimeSpan)
        ensures
            span == TimeSpan::of(
                millis / MILLIS_PER_SEC,
                ((millis % MILLIS_PER_SEC) * NANOS_PER_MILLI) as u32,
            ),
            span.secs() == millis / MILLIS_PER_SEC,
            span.nanos() == (millis % MILLIS_PER_SEC) * NANOS_PER_MILLI,
            span.total_nanos() == millis * NANOS_PER_MILLI,
    {
        let part: u32 = (millis % MILLIS_PER_SEC) as u32;
        TimeSpan { secs: millis / MILLIS_PER_SEC, nanos: part * NANOS_PER_MILLI }
    }

    /// The whole seconds of the span.
    pub fn as_secs(&self) -> (secs: u64)
        ensures
            secs == self.secs(),
            secs == self.total_nanos() / (NANOS_PER_SEC as nat),
    {
        proof {
            use_type_invariant(self);
        }
        self.secs
    }

    /// The nanoseconds beyond the whole seconds, always below one second.
    pub fn subsec_nanos(&self) -> (nanos: u32)
        ensures
            nanos == self.nanos(),
            nanos < NANOS_PER_SEC,
            nanos == self.total_nanos() % (NANOS_PER_SEC as nat),
    {
        proof {
            use_type_invariant(self);
        }
        self.nanos
    }

    /// The length of the span in nanoseconds.
    pub fn as_nanos(&self) -> (nanos: u128)
        ensures
            nanos == self.total_nanos(),
            nanos < (u64::MAX + 1) * NANOS_PER_SEC,
    {
        proof {
            use_type_invariant(self);
        }
        assert(self.secs * NANOS_PER_SEC <= u64::MAX * NANOS_PER_SEC) by (nonlinear_arith);
        (self.secs as u128) * (NANOS_PER_SEC as u128) + (self.nanos as u128)
    }

    /// A span is made of its seconds and nanoseconds and of nothing else.
    pub proof fn lemma_parts(span: TimeSpan)
        ensures
            span == TimeSpan::of(span.secs(), span.nanos()),
    {
    }

    /// The parts that a span was made of can be read back.
    pub proof fn lemma_of(secs: u64, nanos: u32)
        ensures
            TimeSpan::of(secs, nanos).secs() == secs,
            TimeSpan::of(secs, nanos).nanos() == nanos,
            TimeSpan::of(secs, nanos).total_nanos() == secs * NANOS_PER_SEC + nanos,
    {
    }
}

} // verus!

//! Points in time and spans of time, both counted in seconds and nanoseconds.

use vstd::arithmetic::div_mod::{
    lemma_fundamental_div_mod, lemma_fundamental_div_mod_converse, lemma_mod_pos_bound,
};
use vstd::prelude::*;

verus! {

/// Nanoseconds in one second.
pub const NANOS_PER_SEC: u32 = 1_000_000_000;

/// The largest number of nanoseconds that a `Timestamp` or a `TimeSpan` can hold.
pub open spec fn max_total_nanos() -> int {
    u64::MAX as int * NANOS_PER_SEC as int + (NANOS_PER_SEC as int - 1)
}

/// A point in time: the time elapsed since the Unix epoch.
#[derive(Clone, Copy, Debug, PartialEq, Eq)]
pub struct Timestamp {
    pub secs: u64,
    /// Always below one second once well formed.
    pub nanos: u32,
}

/// A span of time, as carried on the wire in place of an absolute deadline.
#[derive(Clone, Copy, Debug, PartialEq, Eq)]
pub struct TimeSpan {
    pub secs: u64,
    /// Always below one second once well formed.
    pub nanos: u32,
}

impl Timestamp {
    pub open spec fn wf(self) -> bool {
        self.nanos < NANOS_PER_SEC
    }

    /// Nanoseconds since the Unix epoch.
    pub open spec fn total(self) -> int {
        self.secs as int * NANOS_PER_SEC as int + self.nanos as int
    }

    /// The Unix epoch itself.
    pub fn epoch() -> (r: Timestamp)
        ensures
            r.wf(),
            r.total() == 0,
    {
        Timestamp { secs: 0, nanos: 0 }
    }

    /// The latest point in time that can be held.
    pub fn max_value() -> (r: Timestamp)
        ensures
            r.wf(),
            r.total() == max_total_nanos(),
    {
        Timestamp { secs: u64::MAX, nanos: NANOS_PER_SEC - 1 }
    }

    pub fn is_wf(&self) -> (r: bool)
        ensures
            r == self.wf(),
    {
        self.nanos < NANOS_PER_SEC
    }

    /// This point in time moved later by `span`, or the latest point that can be held.
    pub fn saturating_add(&self, span: TimeSpan) -> (r: Timestamp)
        requires
            self.wf(),
            span.wf(),
        ensures
            r.wf(),
            r.total() == min_int(self.total() + span.total(), max_total_nanos()),
    {
        let sum: u32 = self.nanos + span.nanos;
        let (nanos, carry): (u32, u64) = if sum >= NANOS_PER_SEC {
            (sum - NANOS_PER_SEC, 1)
        } else {
            (sum, 0)
        };
        match self.secs.checked_add(span.secs) {
            Some(s) => match s.checked_add(carry) {
                Some(secs) => Timestamp { secs, nanos },
                None => Timestamp::max_value(),
            },
            None => Timestamp::max_value(),
        }
    }

    /// The time from `earlier` to this point, or zero where `earlier` is not before it.
    pub fn saturating_duration_since(&self, earlier: Timestamp) -> (r: TimeSpan)
        requires
            self.wf(),
            earlier.wf(),
        ensures
            r.wf(),
            r.total() == max_int(self.total() - earlier.total(), 0),
    {
        if self.secs > earlier.secs || (self.secs == earlier.secs && self.nanos > earlier.nanos) {
            if self.nanos >= earlier.nanos {
                TimeSpan { secs: self.secs - earlier.secs, nanos: self.nanos - earlier.nanos }
            } else {
                TimeSpan {
                    secs: self.secs - earlier.secs - 1,
                    nanos: self.nanos + (NANOS_PER_SEC - earlier.nanos),
                }
            }
        } else {
            TimeSpan::zero()
        }
    }
}

impl TimeSpan {
    pub open spec fn wf(self) -> bool {
        self.nanos < NANOS_PER_SEC
    }

    /// Length of the span in nanoseconds.
    pub open spec fn total(self) -> int {
        self.secs as int * NANOS_PER_SEC as int + self.nanos as int
    }

    pub fn zero() -> (r: TimeSpan)
        ensures
            r.wf(),
            r.total() == 0,
    {
        TimeSpan { secs: 0, nanos: 0 }
    }

    pub fn from_secs(secs: u64) -> (r: TimeSpan)
        ensures
            r.wf(),
            r.secs == secs,
            r.total() == secs * NANOS_PER_SEC,
    {
        TimeSpan { secs, nanos: 0 }
    }
}

#[verifier::external_type_specification]
#[verifier::external_body]
pub struct ExSystemTime(std::time::SystemTime);

/// Relies on std::time::SystemTime::now: the system clock's current time.
#[verifier::external_body]
fn system_now() -> (r: std::time::SystemTime) {
    std::time::SystemTime::now()
}

/// Relies on std::time::SystemTime::duration_since, measured from the Unix epoch: the time
/// since the epoch, a time before the epoch reading as the epoch. Duration::subsec_nanos is
/// documented to stay below one second.
#[verifier::external_body]
fn since_epoch(t: std::time::SystemTime) -> (r: Timestamp)
    ensures
        r.wf(),
{
    let d = t.duration_since(std::time::UNIX_EPOCH).unwrap_or(std::time::Duration::ZERO);
    Timestamp { secs: d.as_secs(), nanos: d.subsec_nanos() }
}

/// The system clock's current time.
pub(crate) fn now() -> (r: Timestamp)
    ensures
        r.wf(),
{
    since_epoch(system_now())
}

/// The well-formed span of `total` nanoseconds.
pub open spec fn span_of(total: int) -> TimeSpan {
    TimeSpan {
        secs: (total / NANOS_PER_SEC as int) as u64,
        nanos: (total % NANOS_PER_SEC as int) as u32,
    }
}

/// A well-formed span is the span of its length.
pub proof fn lemma_span_of_total(s: TimeSpan)
    requires
        s.wf(),
    ensures
        span_of(s.total()) == s,
{
    lemma_fundamental_div_mod_converse(
        s.total(),
        NANOS_PER_SEC as int,
        s.secs as int,
        s.nanos as int,
    );
}

/// Every length that a span can hold has a well-formed span of that length.
pub proof fn lemma_total_of_span(total: int)
    requires
        0 <= total <= max_total_nanos(),
    ensures
        span_of(total).wf(),
        span_of(total).total() == total,
{
    let d = NANOS_PER_SEC as int;
    lemma_fundamental_div_mod(total, d);
    lemma_mod_pos_bound(total, d);
    let q = total / d;
    assert(q * d == d * q) by (nonlinear_arith);
    assert(0 <= q <= u64::MAX) by (nonlinear_arith)
        requires
            total == q * d + total % d,
            0 <= total % d < d,
            0 <= total <= u64::MAX as int * d + (d - 1),
            d == 1_000_000_000,
    ;
}

/// The length of a well-formed point in time or span never exceeds the largest one.
pub proof fn lemma_total_bounded(t: Timestamp)
    requires
        t.wf(),
    ensures
        0 <= t.total() <= max_total_nanos(),
{
}

pub open spec fn min_int(a: int, b: int) -> int {
    if a <= b { a } else { b }
}

pub open spec fn max_int(a: int, b: int) -> int {
    if a >= b { a } else { b }
}

} // verus!

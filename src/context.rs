//! The request context, its defaults, and its form on the wire.

use crate::span::{running_span, span_deadline, span_trace_parts};
use crate::time::{
    lemma_span_of_total, lemma_total_bounded, lemma_total_of_span, max_int, max_total_nanos,
    min_int, now, span_of, TimeSpan, Timestamp,
};
use crate::trace::{TraceContext, TraceId};
use vstd::prelude::*;

verus! {

/// Seconds that a request may run when no deadline was given for it.
pub const DEFAULT_DEADLINE_SECS: u64 = 10;

/// A request context that carries request-scoped information: the deadline and the trace.
/// It is sent from client to server, where it is used to enforce response deadlines.
///
/// A context is a plain value: it is never changed once built, and a context with another
/// deadline is a new value.
#[derive(Clone, Copy, Debug, PartialEq, Eq)]
pub struct Context {
    /// When the client expects the request to be complete by.
    pub deadline: Timestamp,
    /// Identifies the trace of the request, shared by every request that it causes.
    pub trace_context: TraceContext,
}

/// A context as it travels: the time left until the deadline instead of the deadline itself,
/// so that the receiver can anchor it to its own clock.
#[derive(Clone, Copy, Debug, PartialEq, Eq)]
pub struct WireContext {
    /// Time left until the deadline when the context was sent; absent means the default.
    pub relative_deadline: Option<TimeSpan>,
    pub trace_context: TraceContext,
}

/// `now` moved later by `span` nanoseconds, held at the latest time that can be held.
pub open spec fn later_by(now: Timestamp, span: int) -> int {
    min_int(now.total() + span, max_total_nanos())
}

/// Nanoseconds from `now` until `deadline`, zero once it has passed.
pub open spec fn time_left(deadline: Timestamp, now: Timestamp) -> int {
    max_int(deadline.total() - now.total(), 0)
}

/// The default deadline for a request that starts at `now`.
pub open spec fn default_deadline_spec(now: Timestamp) -> int {
    later_by(now, DEFAULT_DEADLINE_SECS * 1_000_000_000)
}

/// The deadline of a request that starts at `now` and was given none.
pub fn default_deadline_at(now: Timestamp) -> (r: Timestamp)
    requires
        now.wf(),
    ensures
        r.wf(),
        r.total() == default_deadline_spec(now),
{
    now.saturating_add(TimeSpan::from_secs(DEFAULT_DEADLINE_SECS))
}

/// Ten seconds from the current time: the deadline of a request that was given none.
pub fn ten_seconds_from_now() -> (r: Timestamp)
    ensures
        r.wf(),
        exists|now: Timestamp| now.wf() && r.total() == default_deadline_spec(now),
{
    default_deadline_at(now())
}

/// Returns the context for the current request, or a default context if no request is active.
/// What is read from the span can be any context, so only well-formedness holds of every
/// outcome; the fallback itself is stated by `Context::from_ambient`.
pub fn current() -> (r: Context)
    ensures
        r.wf(),
{
    Context::current()
}

impl Context {
    pub open spec fn wf(self) -> bool {
        self.deadline.wf()
    }

    /// Whether this context is what `from_ambient` makes of these ambient values at `now`.
    pub open spec fn is_ambient_outcome(
        self,
        trace_context: Option<TraceContext>,
        deadline: Option<Timestamp>,
        now: Timestamp,
    ) -> bool {
        &&& self.wf()
        &&& self.trace_context == (match trace_context {
            Some(t) => t,
            None => TraceContext::empty_spec(),
        })
        &&& match deadline {
            Some(d) if d.wf() => self.deadline == d,
            _ => self.deadline.total() == default_deadline_spec(now),
        }
    }

    /// The context that the ambient state of a unit of work describes, read at `now`: the
    /// trace context found there, else the empty one; the well-formed deadline found there,
    /// else the default deadline.
    pub fn from_ambient(
        trace_context: Option<TraceContext>,
        deadline: Option<Timestamp>,
        now: Timestamp,
    ) -> (r: Context)
        requires
            now.wf(),
        ensures
            r.is_ambient_outcome(trace_context, deadline, now),
    {
        let trace_context = match trace_context {
            Some(t) => t,
            None => TraceContext::empty(),
        };
        let deadline = match deadline {
            Some(d) => if d.is_wf() {
                d
            } else {
                default_deadline_at(now)
            },
            None => default_deadline_at(now),
        };
        Context { deadline, trace_context }
    }

    /// Returns the context for the current request, or a default context if no request is
    /// active: the span's trace context and ambient deadline, each replaced by its default
    /// where absent, as `from_ambient` states.
    pub fn current() -> (r: Context)
        ensures
            r.wf(),
    {
        let span = running_span();
        let (active, trace_id, span_id, sampled) = span_trace_parts(&span);
        let trace_context = TraceContext::from_span_parts(active, trace_id, span_id, sampled);
        let deadline = span_deadline(&span);
        Context::from_ambient(trace_context, deadline, now())
    }

    /// Returns the ID of the request-scoped trace.
    pub fn trace_id(&self) -> (r: &TraceId)
        ensures
            *r == self.trace_context.trace_id,
    {
        &self.trace_context.trace_id
    }

    /// This context with another deadline; `self` is left as it is.
    pub fn with_deadline(&self, deadline: Timestamp) -> (r: Context)
        ensures
            r.deadline == deadline,
            r.trace_context == self.trace_context,
    {
        Context { deadline, trace_context: self.trace_context }
    }

    /// The wire form of this context when it is sent at `now`.
    pub open spec fn to_wire_spec(self, now: Timestamp) -> WireContext {
        WireContext {
            relative_deadline: Some(span_of(time_left(self.deadline, now))),
            trace_context: self.trace_context,
        }
    }

    /// The form in which this context is sent at time `now`: the time left until the
    /// deadline, zero once it has passed, and the trace context as it is.
    pub fn to_wire_at(&self, now: Timestamp) -> (r: WireContext)
        requires
            self.wf(),
            now.wf(),
        ensures
            r.wf(),
            r == self.to_wire_spec(now),
    {
        let left = self.deadline.saturating_duration_since(now);
        proof {
            lemma_span_of_total(left);
        }
        WireContext { relative_deadline: Some(left), trace_context: self.trace_context }
    }

    /// The form in which this context is sent now.
    pub fn to_wire(&self) -> (r: WireContext)
        requires
            self.wf(),
        ensures
            r.wf(),
            exists|sent: Timestamp| sent.wf() && r == self.to_wire_spec(sent),
    {
        let at = now();
        self.to_wire_at(at)
    }
}

impl WireContext {
    pub open spec fn wf(self) -> bool {
        match self.relative_deadline {
            Some(s) => s.wf(),
            None => true,
        }
    }

    /// The deadline that this wire form gives a receiver whose clock reads `now`.
    pub open spec fn deadline_at_spec(self, now: Timestamp) -> int {
        match self.relative_deadline {
            Some(s) => later_by(now, s.total()),
            None => default_deadline_spec(now),
        }
    }

    /// The context that a receiver whose clock reads `now` makes of this wire form: the time
    /// left is added to `now`, and an absent one stands for the default.
    pub fn to_context_at(&self, now: Timestamp) -> (r: Context)
        requires
            self.wf(),
            now.wf(),
        ensures
            r.wf(),
            r.trace_context == self.trace_context,
            r.deadline.total() == self.deadline_at_spec(now),
    {
        let deadline = match self.relative_deadline {
            Some(s) => now.saturating_add(s),
            None => default_deadline_at(now),
        };
        Context { deadline, trace_context: self.trace_context }
    }

    /// The context that a receiver makes of this wire form now.
    pub fn to_context(&self) -> (r: Context)
        requires
            self.wf(),
        ensures
            r.wf(),
            r.trace_context == self.trace_context,
            exists|received: Timestamp|
                received.wf() && r.deadline.total() == self.deadline_at_spec(received),
    {
        let at = now();
        self.to_context_at(at)
    }
}

/// Sending a context and receiving it at the same instant gives back its trace context, and
/// its deadline where that had not yet passed; a deadline that had passed comes back as that
/// instant.
pub proof fn lemma_wire_round_trip(c: Context, now: Timestamp)
    requires
        c.wf(),
        now.wf(),
    ensures
        c.to_wire_spec(now).wf(),
        c.to_wire_spec(now).trace_context == c.trace_context,
        c.to_wire_spec(now).deadline_at_spec(now) == max_int(c.deadline.total(), now.total()),
        c.deadline.total() >= now.total() ==> c.to_wire_spec(now).deadline_at_spec(now)
            == c.deadline.total(),
{
    lemma_total_bounded(c.deadline);
    lemma_total_bounded(now);
    lemma_total_of_span(time_left(c.deadline, now));
}

/// A context sent at `sent` and received at `received` gets the deadline `received` plus the
/// time that was left at `sent`: it is anchored to the receiver's clock, not the sender's.
pub proof fn lemma_clock_skew(c: Context, sent: Timestamp, received: Timestamp)
    requires
        c.wf(),
        sent.wf(),
        received.wf(),
    ensures
        c.to_wire_spec(sent).deadline_at_spec(received) == later_by(
            received,
            time_left(c.deadline, sent),
        ),
        c.deadline.total() >= sent.total() && received.total() + (c.deadline.total()
            - sent.total()) <= max_total_nanos() ==> c.to_wire_spec(sent).deadline_at_spec(
            received,
        ) == received.total() + (c.deadline.total() - sent.total()),
{
    lemma_total_bounded(c.deadline);
    lemma_total_bounded(sent);
    lemma_total_of_span(time_left(c.deadline, sent));
}

/// A context whose deadline has passed when it is sent carries exactly zero time left.
pub proof fn lemma_passed_deadline_sends_zero(c: Context, now: Timestamp)
    requires
        c.wf(),
        now.wf(),
        c.deadline.total() <= now.total(),
    ensures
        c.to_wire_spec(now).relative_deadline == Some(TimeSpan { secs: 0, nanos: 0 }),
{
    lemma_total_of_span(0);
}

} // verus!

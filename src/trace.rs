//! The trace context that ties a call to the other calls of the same request.

use vstd::prelude::*;

verus! {

/// Identifies every call that belongs to one top-level request.
#[derive(Clone, Copy, Debug, PartialEq, Eq, Hash)]
pub struct TraceId(pub u128);

/// Identifies one call within a trace.
#[derive(Clone, Copy, Debug, PartialEq, Eq, Hash)]
pub struct SpanId(pub u64);

/// Whether the tracing backend records the trace.
#[derive(Clone, Copy, Debug, PartialEq, Eq, Hash)]
pub enum SamplingDecision {
    Sampled,
    Unsampled,
}

/// The trace id, span id and sampling decision of a call, copied as they are into every
/// context derived from it.
#[derive(Clone, Copy, Debug, PartialEq, Eq, Hash)]
pub struct TraceContext {
    pub trace_id: TraceId,
    pub span_id: SpanId,
    pub sampling_decision: SamplingDecision,
}

/// The trace flags byte that marks a sampled trace.
pub const SAMPLED_FLAG: u8 = 1;

impl SamplingDecision {
    pub fn from_sampled(sampled: bool) -> (r: SamplingDecision)
        ensures
            r == (if sampled { SamplingDecision::Sampled } else { SamplingDecision::Unsampled }),
    {
        if sampled {
            SamplingDecision::Sampled
        } else {
            SamplingDecision::Unsampled
        }
    }

    pub open spec fn flags_spec(self) -> u8 {
        match self {
            SamplingDecision::Sampled => SAMPLED_FLAG,
            SamplingDecision::Unsampled => 0,
        }
    }

    /// The trace flags byte of this decision: the sampled bit alone, or no bit.
    pub fn trace_flags(&self) -> (r: u8)
        ensures
            r == self.flags_spec(),
    {
        match self {
            SamplingDecision::Sampled => SAMPLED_FLAG,
            SamplingDecision::Unsampled => 0,
        }
    }
}

impl TraceContext {
    pub open spec fn empty_spec() -> TraceContext {
        TraceContext {
            trace_id: TraceId(0),
            span_id: SpanId(0),
            sampling_decision: SamplingDecision::Unsampled,
        }
    }

    /// The context of no trace: zero ids, not sampled.
    pub fn empty() -> (r: TraceContext)
        ensures
            r == TraceContext::empty_spec(),
    {
        TraceContext {
            trace_id: TraceId(0),
            span_id: SpanId(0),
            sampling_decision: SamplingDecision::Unsampled,
        }
    }

    /// A trace context from the parts that a span reports.
    pub fn from_parts(trace_id: u128, span_id: u64, sampled: bool) -> (r: TraceContext)
        ensures
            r.trace_id == TraceId(trace_id),
            r.span_id == SpanId(span_id),
            r.sampling_decision == (if sampled {
                SamplingDecision::Sampled
            } else {
                SamplingDecision::Unsampled
            }),
    {
        TraceContext {
            trace_id: TraceId(trace_id),
            span_id: SpanId(span_id),
            sampling_decision: SamplingDecision::from_sampled(sampled),
        }
    }

    /// The trace context that a span reports: its ids and sampled flag where the span has an
    /// active OpenTelemetry span, and none where it has not.
    pub fn from_span_parts(active: bool, trace_id: u128, span_id: u64, sampled: bool) -> (r:
        Option<TraceContext>)
        ensures
            r == (if active {
                Some(
                    TraceContext {
                        trace_id: TraceId(trace_id),
                        span_id: SpanId(span_id),
                        sampling_decision: if sampled {
                            SamplingDecision::Sampled
                        } else {
                            SamplingDecision::Unsampled
                        },
                    },
                )
            } else {
                None
            }),
    {
        if active {
            Some(TraceContext::from_parts(trace_id, span_id, sampled))
        } else {
            None
        }
    }
}

} // verus!

use tarpc::{SamplingDecision, SpanId, TraceContext, TraceId};

#[test]
fn empty_trace_context_is_unsampled_zero() {
    let empty = TraceContext::empty();
    assert_eq!(empty.trace_id, TraceId(0));
    assert_eq!(empty.span_id, SpanId(0));
    assert_eq!(empty.sampling_decision, SamplingDecision::Unsampled);
}

#[test]
fn trace_flags_mark_sampling() {
    assert_eq!(SamplingDecision::Sampled.trace_flags(), 1);
    assert_eq!(SamplingDecision::Unsampled.trace_flags(), 0);
    assert_eq!(SamplingDecision::from_sampled(true), SamplingDecision::Sampled);
    assert_eq!(SamplingDecision::from_sampled(false), SamplingDecision::Unsampled);
}

#[test]
fn trace_context_from_parts_copies_ids() {
    let tc = TraceContext::from_parts(7, 8, true);
    assert_eq!(tc.trace_id, TraceId(7));
    assert_eq!(tc.span_id, SpanId(8));
    assert_eq!(tc.sampling_decision, SamplingDecision::Sampled);
}

#[test]
fn trace_context_from_span_parts_needs_active_span() {
    assert_eq!(TraceContext::from_span_parts(false, 7, 8, true), None);
    assert_eq!(
        TraceContext::from_span_parts(true, 7, 8, false),
        Some(TraceContext {
            trace_id: TraceId(7),
            span_id: SpanId(8),
            sampling_decision: SamplingDecision::Unsampled,
        })
    );
}

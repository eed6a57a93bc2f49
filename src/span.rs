//! The ambient store: a context attached to a unit of work (a tracing span), so that code
//! running in that unit of work can recover it without having it passed along.

use crate::context::Context;
use crate::time::Timestamp;
use opentelemetry::trace::TraceContextExt;
use tracing_opentelemetry::OpenTelemetrySpanExt;
use vstd::prelude::*;

verus! {

#[verifier::external_type_specification]
#[verifier::external_body]
pub struct ExSpan(tracing::Span);

/// Relies on tracing::Span::current: the span of the unit of work that is running, which may
/// be a disabled span when none is.
#[verifier::external_body]
pub(crate) fn running_span() -> (r: tracing::Span) {
    tracing::Span::current()
}

/// The deadline of a unit of work, as it is kept in the span's ambient state.
#[derive(Clone, Copy, Debug)]
pub(crate) struct Deadline(pub Timestamp);

/// Relies on OpenTelemetrySpanExt::context and TraceContextExt::has_active_span and span:
/// whether the span's OpenTelemetry context has an active span, and that span's trace id,
/// span id and sampled flag.
#[verifier::external_body]
pub(crate) fn span_trace_parts(span: &tracing::Span) -> (r: (bool, u128, u64, bool)) {
    let cx = span.context();
    let sc = cx.span().span_context().clone();
    (
        cx.has_active_span(),
        u128::from_be_bytes(sc.trace_id().to_bytes()),
        u64::from_be_bytes(sc.span_id().to_bytes()),
        sc.is_sampled(),
    )
}

/// Relies on OpenTelemetrySpanExt::context and opentelemetry::Context::get: the deadline kept
/// in the span's OpenTelemetry context, if one was put there.
#[verifier::external_body]
pub(crate) fn span_deadline(span: &tracing::Span) -> (r: Option<Timestamp>) {
    span.context().get::<Deadline>().map(|d| d.0)
}

/// What a span is given as its parent when a context is set on it: the remote span's trace
/// id, span id and trace flags, and the deadline that becomes the span's ambient deadline.
#[derive(Clone, Copy, Debug, PartialEq, Eq)]
pub struct SpanParent {
    pub trace_id: u128,
    pub span_id: u64,
    pub flags: u8,
    pub deadline: Timestamp,
}

impl SpanParent {
    /// The parent that `context` describes: its trace fields as they are, the flags byte of
    /// its sampling decision, and its deadline.
    pub open spec fn of(context: Context) -> SpanParent {
        SpanParent {
            trace_id: context.trace_context.trace_id.0,
            span_id: context.trace_context.span_id.0,
            flags: context.trace_context.sampling_decision.flags_spec(),
            deadline: context.deadline,
        }
    }

    /// The parent that `context` describes.
    pub fn from_context(context: &Context) -> (r: SpanParent)
        ensures
            r == SpanParent::of(*context),
    {
        let tc = context.trace_context;
        SpanParent {
            trace_id: tc.trace_id.0,
            span_id: tc.span_id.0,
            flags: tc.sampling_decision.trace_flags(),
            deadline: context.deadline,
        }
    }
}

/// A unit of work that a context can be set on: a tracing span, with a record of the parent
/// last set on it through this library.
pub struct ContextSpan {
    span: tracing::Span,
    parent: Ghost<Option<SpanParent>>,
}

impl ContextSpan {
    /// The parent last set on the span through this value, if any.
    pub closed spec fn installed(&self) -> Option<SpanParent> {
        self.parent@
    }

    /// Wraps `span`; no parent has been set through it yet.
    pub fn new(span: tracing::Span) -> (r: ContextSpan)
        ensures
            r.installed() is None,
    {
        ContextSpan { span, parent: Ghost(None) }
    }

    /// The span itself, to enter it or to create children inside it.
    pub fn span(&self) -> (r: &tracing::Span) {
        &self.span
    }
}

/// Relies on OpenTelemetrySpanExt::set_parent, given an OpenTelemetry context built with
/// SpanContext::new, TraceContextExt::with_remote_span_context and Context::with_value: the
/// span becomes a child of the remote span with these ids and flags, and keeps the deadline.
/// The record of the installed parent becomes `parent`.
#[verifier::external_body]
fn set_span_parent(target: &mut ContextSpan, parent: SpanParent)
    ensures
        final(target).installed() == Some(parent),
{
    let remote = opentelemetry::trace::SpanContext::new(
        opentelemetry::trace::TraceId::from(parent.trace_id),
        opentelemetry::trace::SpanId::from(parent.span_id),
        opentelemetry::trace::TraceFlags::new(parent.flags),
        true,
        opentelemetry::trace::TraceState::default(),
    );
    let cx = opentelemetry::Context::new().with_remote_span_context(remote);
    target.span.set_parent(cx.with_value(Deadline(parent.deadline)));
}

/// Sets the given context on this span: spans created inside it become children of the
/// context's trace, and the context's deadline becomes the span's ambient deadline. The
/// trace fields are handed on as they are, and the deadline is installed whatever the trace
/// context holds.
pub fn set_context(target: &mut ContextSpan, context: &Context)
    ensures
        final(target).installed() == Some(SpanParent::of(*context)),
{
    let parent = SpanParent::from_context(context);
    set_span_parent(target, parent);
}

} // verus!

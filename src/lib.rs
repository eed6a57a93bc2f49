//! Request-scoped context for remote procedure calls: a deadline and a trace context, with
//! the conversions that carry them across the network and across units of work.

pub mod archive;
pub mod codec;
pub mod context;
pub mod span;
pub mod time;
pub mod trace;

pub use archive::{archive_deadline, archive_deadline_at, unarchive_deadline, unarchive_deadline_at};
pub use codec::{deserialize, deserialize_at, serialize, serialize_at};
pub use context::{current, ten_seconds_from_now, Context, WireContext, DEFAULT_DEADLINE_SECS};
pub use span::{set_context, ContextSpan, SpanParent};
pub use time::{TimeSpan, Timestamp, NANOS_PER_SEC};
pub use trace::{SamplingDecision, SpanId, TraceContext, TraceId};

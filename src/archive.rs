//! The deadline in the archival binary format. Like the byte form of `codec`, it carries the
//! time left until the deadline, which the receiver adds to its own clock; the time left is
//! stored as an archived duration.

use crate::codec::duration_bytes;
use crate::context::{later_by, time_left};
use crate::time::{
    lemma_span_of_total, lemma_total_bounded, lemma_total_of_span, max_int, now, span_of, TimeSpan,
    Timestamp,
};
use vstd::prelude::*;

verus! {

/// The archive of a duration: its seconds and nanoseconds as little-endian integers, then
/// four bytes of zeroed padding.
pub open spec fn archived_duration(s: TimeSpan) -> Seq<u8> {
    duration_bytes(s) + seq![0u8, 0u8, 0u8, 0u8]
}

/// Relies on rkyv::to_bytes of a std::time::Duration, with rkyv's `archive_le` and `strict`
/// features: the root is a `#[repr(C)]` archived duration of a little-endian u64 and u32,
/// written with its padding zeroed; archiving a duration into a growing buffer does not fail.
#[verifier::external_body]
fn archive_duration(span: TimeSpan) -> (r: Vec<u8>)
    requires
        span.wf(),
    ensures
        r@ == archived_duration(span),
{
    rkyv::to_bytes::<_, 64>(&std::time::Duration::new(span.secs, span.nanos))
        .map(|bytes| bytes.into_vec())
        .unwrap_or_default()
}

/// Relies on rkyv::from_bytes of a std::time::Duration, read from an aligned copy of the
/// bytes: it validates the archive and gives back the duration that was archived, built with
/// Duration::new, whose sub-second part stays below one second.
#[verifier::external_body]
fn unarchive_duration(bytes: &[u8]) -> (r: Option<TimeSpan>)
    ensures
        r is Some ==> r.unwrap().wf(),
        forall|s: TimeSpan|
            #![trigger archived_duration(s)]
            s.wf() && bytes@ == archived_duration(s) ==> r == Some(s),
{
    let mut aligned = rkyv::AlignedVec::new();
    aligned.extend_from_slice(bytes);
    match rkyv::from_bytes::<std::time::Duration>(&aligned) {
        Ok(d) => Some(TimeSpan { secs: d.as_secs(), nanos: d.subsec_nanos() }),
        Err(_) => None,
    }
}

/// The archived bytes that carry `deadline` when it is sent at `now`: the time left until
/// it, zero once it has passed.
pub fn archive_deadline_at(deadline: &Timestamp, now: Timestamp) -> (r: Vec<u8>)
    requires
        deadline.wf(),
        now.wf(),
    ensures
        r@ == archived_duration(span_of(time_left(*deadline, now))),
{
    let left = deadline.saturating_duration_since(now);
    proof {
        lemma_span_of_total(left);
    }
    archive_duration(left)
}

/// The archived bytes that carry `deadline` when it is sent now.
pub fn archive_deadline(deadline: &Timestamp) -> (r: Vec<u8>)
    requires
        deadline.wf(),
    ensures
        exists|sent: Timestamp|
            sent.wf() && r@ == archived_duration(span_of(time_left(*deadline, sent))),
{
    let sent = now();
    archive_deadline_at(deadline, sent)
}

/// The deadline that archived bytes carry for a receiver whose clock reads `now`: the time
/// left that they hold, added to `now`. The archive of a well-formed span always gives it
/// back; bytes that hold no valid archive give `None`.
pub fn unarchive_deadline_at(bytes: &[u8], now: Timestamp) -> (r: Option<Timestamp>)
    requires
        now.wf(),
    ensures
        r is Some ==> r.unwrap().wf(),
        r is Some ==> exists|s: TimeSpan| s.wf() && r.unwrap().total() == later_by(now, s.total()),
        forall|s: TimeSpan|
            #![trigger archived_duration(s)]
            s.wf() && bytes@ == archived_duration(s) ==> r is Some && r.unwrap().total()
                == later_by(now, s.total()),
{
    match unarchive_duration(bytes) {
        Some(s) => Some(now.saturating_add(s)),
        None => None,
    }
}

/// The deadline that archived bytes carry, read against the receiver's clock now.
pub fn unarchive_deadline(bytes: &[u8]) -> (r: Option<Timestamp>)
    ensures
        r is Some ==> r.unwrap().wf(),
        forall|s: TimeSpan|
            #![trigger archived_duration(s)]
            s.wf() && bytes@ == archived_duration(s) ==> r is Some && exists|received: Timestamp|
                received.wf() && r.unwrap().total() == later_by(received, s.total()),
{
    let received = now();
    unarchive_deadline_at(bytes, received)
}

/// The span that `archive_deadline_at` archives for a deadline sent at `sent` is well formed
/// and holds the time left, so a receiver whose clock reads `received` gets `received` plus
/// that time left; at the sending instant itself, the deadline where it had not yet passed
/// and that instant where it had.
pub proof fn lemma_archive_clock_skew(deadline: Timestamp, sent: Timestamp, received: Timestamp)
    requires
        deadline.wf(),
        sent.wf(),
        received.wf(),
    ensures
        span_of(time_left(deadline, sent)).wf(),
        later_by(received, span_of(time_left(deadline, sent)).total()) == later_by(
            received,
            time_left(deadline, sent),
        ),
        later_by(sent, span_of(time_left(deadline, sent)).total()) == max_int(
            deadline.total(),
            sent.total(),
        ),
{
    lemma_total_bounded(deadline);
    lemma_total_bounded(sent);
    lemma_total_of_span(time_left(deadline, sent));
}

} // verus!

//! The deadline on the wire as bytes: the time left until it, in bincode's encoding of a
//! duration, read back against the receiver's clock.

use crate::context::{later_by, time_left};
use crate::time::{lemma_total_bounded, lemma_total_of_span, max_int};
use crate::time::{lemma_span_of_total, now, span_of, TimeSpan, Timestamp, NANOS_PER_SEC};
use vstd::prelude::*;

verus! {

/// Bytes in the encoding of a duration: eight for the seconds, four for the nanoseconds.
pub const DURATION_BYTES: usize = 12;

/// `v` as eight bytes, least significant first.
pub open spec fn u64_le(v: u64) -> Seq<u8> {
    seq![
        (v & 0xff) as u8,
        ((v >> 8u64) & 0xff) as u8,
        ((v >> 16u64) & 0xff) as u8,
        ((v >> 24u64) & 0xff) as u8,
        ((v >> 32u64) & 0xff) as u8,
        ((v >> 40u64) & 0xff) as u8,
        ((v >> 48u64) & 0xff) as u8,
        ((v >> 56u64) & 0xff) as u8,
    ]
}

/// `v` as four bytes, least significant first.
pub open spec fn u32_le(v: u32) -> Seq<u8> {
    seq![
        (v & 0xff) as u8,
        ((v >> 8u32) & 0xff) as u8,
        ((v >> 16u32) & 0xff) as u8,
        ((v >> 24u32) & 0xff) as u8,
    ]
}

/// The integer whose eight bytes, least significant first, start `b`.
pub open spec fn u64_of_le(b: Seq<u8>) -> u64 {
    (b[0] as u64) | ((b[1] as u64) << 8u64) | ((b[2] as u64) << 16u64) | ((b[3] as u64) << 24u64)
        | ((b[4] as u64) << 32u64) | ((b[5] as u64) << 40u64) | ((b[6] as u64) << 48u64) | ((
    b[7] as u64) << 56u64)
}

/// The integer whose four bytes, least significant first, start `b`.
pub open spec fn u32_of_le(b: Seq<u8>) -> u32 {
    (b[0] as u32) | ((b[1] as u32) << 8u32) | ((b[2] as u32) << 16u32) | ((b[3] as u32) << 24u32)
}

/// The encoding of a duration: its whole seconds, then its sub-second nanoseconds.
pub open spec fn duration_bytes(s: TimeSpan) -> Seq<u8> {
    u64_le(s.secs) + u32_le(s.nanos)
}

/// The duration that `b` starts with, if any: there must be twelve bytes, and the
/// nanoseconds, carried into the seconds, must leave the seconds in range. Bytes after the
/// twelfth are ignored.
pub open spec fn duration_of_bytes(b: Seq<u8>) -> Option<TimeSpan> {
    if b.len() < DURATION_BYTES {
        None
    } else {
        let secs = u64_of_le(b.subrange(0, 8));
        let nanos = u32_of_le(b.subrange(8, 12));
        let carried = secs as int + nanos as int / NANOS_PER_SEC as int;
        if carried > u64::MAX as int {
            None
        } else {
            Some(TimeSpan { secs: carried as u64, nanos: (nanos % NANOS_PER_SEC) as u32 })
        }
    }
}

/// Relies on bincode::serialize of a std::time::Duration: bincode's default options write
/// fixed-width little-endian integers, serde writes a duration as its whole seconds (u64) and
/// then its sub-second nanoseconds (u32), and writing into a growing buffer with no size limit
/// does not fail.
#[verifier::external_body]
fn encode_duration(span: TimeSpan) -> (r: Vec<u8>)
    requires
        span.wf(),
    ensures
        r@ == duration_bytes(span),
{
    bincode::serialize(&std::time::Duration::new(span.secs, span.nanos)).unwrap_or_default()
}

/// Relies on bincode::deserialize of a std::time::Duration: it reads a u64 and a u32, fixed
/// width and little-endian, allows trailing bytes, fails on fewer than twelve bytes, and serde
/// fails where carrying the nanoseconds into the seconds overflows, else builds the duration
/// with Duration::new, which carries them.
#[verifier::external_body]
fn decode_duration(bytes: &[u8]) -> (r: Option<TimeSpan>)
    ensures
        r == duration_of_bytes(bytes@),
{
    match bincode::deserialize::<std::time::Duration>(bytes) {
        Ok(d) => Some(TimeSpan { secs: d.as_secs(), nanos: d.subsec_nanos() }),
        Err(_) => None,
    }
}

/// The bytes that carry `deadline` when it is sent at `now`: the time left until it, zero
/// once it has passed.
pub fn serialize_at(deadline: &Timestamp, now: Timestamp) -> (r: Vec<u8>)
    requires
        deadline.wf(),
        now.wf(),
    ensures
        r@ == duration_bytes(span_of(time_left(*deadline, now))),
{
    let left = deadline.saturating_duration_since(now);
    proof {
        lemma_span_of_total(left);
    }
    encode_duration(left)
}

/// The bytes that carry `deadline` when it is sent now.
pub fn serialize(deadline: &Timestamp) -> (r: Vec<u8>)
    requires
        deadline.wf(),
    ensures
        exists|sent: Timestamp| sent.wf() && r@ == duration_bytes(span_of(time_left(*deadline, sent))),
{
    let sent = now();
    serialize_at(deadline, sent)
}

/// The deadline that `bytes` carry for a receiver whose clock reads `now`: the time left that
/// they hold, added to `now`; `None` where they hold no duration.
pub fn deserialize_at(bytes: &[u8], now: Timestamp) -> (r: Option<Timestamp>)
    requires
        now.wf(),
    ensures
        match duration_of_bytes(bytes@) {
            None => r is None,
            Some(s) => r is Some && r.unwrap().wf() && r.unwrap().total() == later_by(now, s.total()),
        },
{
    match decode_duration(bytes) {
        Some(s) => Some(now.saturating_add(s)),
        None => None,
    }
}

/// The deadline that `bytes` carry, read against the receiver's clock now.
pub fn deserialize(bytes: &[u8]) -> (r: Option<Timestamp>)
    ensures
        (r is Some) == (duration_of_bytes(bytes@) is Some),
        r is Some ==> r.unwrap().wf(),
        r is Some ==> exists|received: Timestamp|
            received.wf() && r.unwrap().total() == later_by(
                received,
                duration_of_bytes(bytes@).unwrap().total(),
            ),
{
    let received = now();
    deserialize_at(bytes, received)
}

/// Reading eight bytes written least significant first gives back the integer.
pub proof fn lemma_u64_le_round_trip(v: u64)
    ensures
        u64_le(v).len() == 8,
        u64_of_le(u64_le(v)) == v,
{
    assert((((v & 0xff) as u8) as u64) | (((((v >> 8u64) & 0xff) as u8) as u64) << 8u64) | (((((v >> 16u64) & 0xff) as u8) as u64) << 16u64) | (((((v >> 24u64) & 0xff) as u8) as u64) << 24u64) | (((((v >> 32u64) & 0xff) as u8) as u64) << 32u64) | (((((v >> 40u64) & 0xff) as u8) as u64) << 40u64) | (((((v >> 48u64) & 0xff) as u8) as u64) << 48u64) | (((((v >> 56u64) & 0xff) as u8) as u64) << 56u64) == v) by (bit_vector);
}

/// Reading four bytes written least significant first gives back the integer.
pub proof fn lemma_u32_le_round_trip(v: u32)
    ensures
        u32_le(v).len() == 4,
        u32_of_le(u32_le(v)) == v,
{
    assert((((v & 0xff) as u8) as u32) | (((((v >> 8u32) & 0xff) as u8) as u32) << 8u32) | (((((v >> 16u32) & 0xff) as u8) as u32) << 16u32) | (((((v >> 24u32) & 0xff) as u8) as u32) << 24u32) == v) by (bit_vector);
}

/// Decoding the encoding of a well-formed duration gives back the duration.
pub proof fn lemma_duration_round_trip(s: TimeSpan)
    requires
        s.wf(),
    ensures
        duration_of_bytes(duration_bytes(s)) == Some(s),
{
    let b = duration_bytes(s);
    lemma_u64_le_round_trip(s.secs);
    lemma_u32_le_round_trip(s.nanos);
    assert(b.subrange(0, 8) =~= u64_le(s.secs));
    assert(b.subrange(8, 12) =~= u32_le(s.nanos));
}

/// A deadline written at `now` and read back at the same instant is the deadline itself
/// where it had not yet passed, and that instant where it had.
pub proof fn lemma_bytes_round_trip(deadline: Timestamp, now: Timestamp)
    requires
        deadline.wf(),
        now.wf(),
    ensures
        duration_of_bytes(duration_bytes(span_of(time_left(deadline, now)))) is Some,
        later_by(
            now,
            duration_of_bytes(duration_bytes(span_of(time_left(deadline, now)))).unwrap().total(),
        ) == max_int(deadline.total(), now.total()),
{
    lemma_total_bounded(deadline);
    lemma_total_bounded(now);
    lemma_total_of_span(time_left(deadline, now));
    lemma_duration_round_trip(span_of(time_left(deadline, now)));
}

/// A deadline written at `sent` and read at `received` is `received` plus the time that was
/// left at `sent`, whatever the two clocks read.
pub proof fn lemma_bytes_clock_skew(deadline: Timestamp, sent: Timestamp, received: Timestamp)
    requires
        deadline.wf(),
        sent.wf(),
        received.wf(),
    ensures
        duration_of_bytes(duration_bytes(span_of(time_left(deadline, sent)))) is Some,
        later_by(
            received,
            duration_of_bytes(duration_bytes(span_of(time_left(deadline, sent)))).unwrap().total(),
        ) == later_by(received, time_left(deadline, sent)),
{
    lemma_total_bounded(deadline);
    lemma_total_bounded(sent);
    lemma_total_of_span(time_left(deadline, sent));
    lemma_duration_round_trip(span_of(time_left(deadline, sent)));
}

} // verus!

use std::time::{Duration, SystemTime, UNIX_EPOCH};
use tarpc::{deserialize, deserialize_at, serialize, serialize_at, TimeSpan, Timestamp};

fn clock_now() -> Timestamp {
    let d = SystemTime::now().duration_since(UNIX_EPOCH).unwrap();
    Timestamp { secs: d.as_secs(), nanos: d.subsec_nanos() }
}

fn duration_bytes(secs: u64, nanos: u32) -> Vec<u8> {
    let mut v = secs.to_le_bytes().to_vec();
    v.extend_from_slice(&nanos.to_le_bytes());
    v
}

#[test]
fn test_serialize() {
    let now = clock_now();
    let deadline = Timestamp { secs: now.secs + 10, nanos: now.nanos };
    let serialized_deadline = serialize(&deadline);
    let deserialized_deadline: Duration = bincode::deserialize(&serialized_deadline).unwrap();
    assert!(deserialized_deadline > Duration::from_secs(9));
}

#[test]
fn test_deserialize() {
    let deadline = Duration::from_secs(10);
    let serialized_deadline = bincode::serialize(&deadline).unwrap();
    let deserialized_deadline = deserialize(&serialized_deadline).unwrap();
    let now = clock_now();
    assert!(
        (deserialized_deadline.secs, deserialized_deadline.nanos) > (now.secs + 9, now.nanos)
    );
}

#[test]
fn serialize_at_writes_time_left() {
    let deadline = Timestamp { secs: 100, nanos: 500 };
    let now = Timestamp { secs: 90, nanos: 700 };
    assert_eq!(serialize_at(&deadline, now), duration_bytes(9, 999_999_800));
}

#[test]
fn serialize_at_matches_bincode_duration() {
    let deadline = Timestamp { secs: 1_000, nanos: 250 };
    let now = Timestamp { secs: 400, nanos: 0 };
    let expected = bincode::serialize(&Duration::new(600, 250)).unwrap();
    assert_eq!(serialize_at(&deadline, now), expected);
}

#[test]
fn serialize_at_clamps_passed_deadline_to_zero() {
    let deadline = Timestamp { secs: 50, nanos: 0 };
    let now = Timestamp { secs: 60, nanos: 1 };
    assert_eq!(serialize_at(&deadline, now), vec![0u8; 12]);
    assert_eq!(serialize_at(&now, now), vec![0u8; 12]);
}

#[test]
fn deserialize_at_adds_to_receiver_clock() {
    let bytes = duration_bytes(5, 0);
    let now = Timestamp { secs: 100, nanos: 999_999_999 };
    assert_eq!(deserialize_at(&bytes, now), Some(Timestamp { secs: 105, nanos: 999_999_999 }));
}

#[test]
fn deserialize_at_ignores_trailing_bytes() {
    let mut bytes = duration_bytes(1, 2);
    bytes.push(7);
    let now = Timestamp { secs: 10, nanos: 0 };
    assert_eq!(deserialize_at(&bytes, now), Some(Timestamp { secs: 11, nanos: 2 }));
}

#[test]
fn deserialize_at_carries_nanos() {
    let bytes = duration_bytes(1, 1_500_000_000);
    let now = Timestamp { secs: 0, nanos: 600_000_000 };
    assert_eq!(deserialize_at(&bytes, now), Some(Timestamp { secs: 3, nanos: 100_000_000 }));
}

#[test]
fn deserialize_at_rejects_short_input() {
    let now = Timestamp { secs: 0, nanos: 0 };
    assert_eq!(deserialize_at(&[0u8; 11], now), None);
    assert_eq!(deserialize_at(&[], now), None);
}

#[test]
fn deserialize_at_rejects_overflowing_duration() {
    let bytes = duration_bytes(u64::MAX, 1_000_000_000);
    assert_eq!(deserialize_at(&bytes, Timestamp { secs: 0, nanos: 0 }), None);
}

#[test]
fn deserialize_at_saturates_at_latest_time() {
    let bytes = duration_bytes(u64::MAX, 0);
    let now = Timestamp { secs: 5, nanos: 0 };
    assert_eq!(
        deserialize_at(&bytes, now),
        Some(Timestamp { secs: u64::MAX, nanos: 999_999_999 })
    );
}

#[test]
fn bytes_round_trip_at_one_instant() {
    let deadline = Timestamp { secs: 77, nanos: 123 };
    let now = Timestamp { secs: 70, nanos: 999 };
    let bytes = serialize_at(&deadline, now);
    assert_eq!(deserialize_at(&bytes, now), Some(deadline));
}

#[test]
fn bytes_are_anchored_to_receiver_clock() {
    let deadline = Timestamp { secs: 1_010, nanos: 0 };
    let sent = Timestamp { secs: 1_000, nanos: 0 };
    let received = Timestamp { secs: 5_000, nanos: 0 };
    let bytes = serialize_at(&deadline, sent);
    assert_eq!(deserialize_at(&bytes, received), Some(Timestamp { secs: 5_010, nanos: 0 }));
}

#[test]
fn time_span_zero_has_no_length() {
    assert_eq!(TimeSpan::zero(), TimeSpan { secs: 0, nanos: 0 });
    assert_eq!(TimeSpan::from_secs(3), TimeSpan { secs: 3, nanos: 0 });
}

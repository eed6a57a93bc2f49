use std::time::{Duration, SystemTime, UNIX_EPOCH};
use tarpc::{archive_deadline, archive_deadline_at, unarchive_deadline, unarchive_deadline_at, Timestamp};

fn archived(secs: u64, nanos: u32) -> Vec<u8> {
    let mut v = secs.to_le_bytes().to_vec();
    v.extend_from_slice(&nanos.to_le_bytes());
    v.extend_from_slice(&[0, 0, 0, 0]);
    v
}

fn clock_now() -> Timestamp {
    let d = SystemTime::now().duration_since(UNIX_EPOCH).unwrap();
    Timestamp { secs: d.as_secs(), nanos: d.subsec_nanos() }
}

#[test]
fn archive_holds_time_left() {
    let deadline = Timestamp { secs: 100, nanos: 0 };
    let now = Timestamp { secs: 90, nanos: 0 };
    let bytes = archive_deadline_at(&deadline, now);
    assert_eq!(bytes, archived(10, 0));
    let expected = rkyv::to_bytes::<_, 64>(&Duration::new(10, 0)).unwrap();
    assert_eq!(bytes, expected.into_vec());
}

#[test]
fn archive_clamps_passed_deadline() {
    let deadline = Timestamp { secs: 5, nanos: 0 };
    let now = Timestamp { secs: 90, nanos: 0 };
    assert_eq!(archive_deadline_at(&deadline, now), archived(0, 0));
}

#[test]
fn archive_round_trip_at_one_instant() {
    let deadline = Timestamp { secs: 1_700_000_000, nanos: 123_456_789 };
    let now = Timestamp { secs: 1_699_999_990, nanos: 999_999_999 };
    let bytes = archive_deadline_at(&deadline, now);
    assert_eq!(unarchive_deadline_at(&bytes, now), Some(deadline));
}

#[test]
fn archive_is_anchored_to_receiver_clock() {
    let deadline = Timestamp { secs: 1_010, nanos: 0 };
    let bytes = archive_deadline_at(&deadline, Timestamp { secs: 1_000, nanos: 0 });
    let received = unarchive_deadline_at(&bytes, Timestamp { secs: 20, nanos: 5 });
    assert_eq!(received, Some(Timestamp { secs: 30, nanos: 5 }));
}

#[test]
fn archive_now_keeps_time_left() {
    let now = clock_now();
    let deadline = Timestamp { secs: now.secs + 10, nanos: now.nanos };
    let bytes = archive_deadline(&deadline);
    let back = unarchive_deadline(&bytes).unwrap();
    assert!((back.secs, back.nanos) > (now.secs + 9, now.nanos));
}

#[test]
fn unarchive_rejects_garbage() {
    assert_eq!(unarchive_deadline(&[1, 2, 3]), None);
    assert_eq!(unarchive_deadline_at(&[], Timestamp { secs: 0, nanos: 0 }), None);
}

use armature_session::time::{Timestamp, Ttl, MAX_TIMESTAMP_SECS, MIN_TIMESTAMP_SECS};

#[test]
fn timestamps_hold_the_representable_range() {
    assert!(Timestamp::from_parts(0, 0).is_some());
    assert!(Timestamp::from_parts(0, 999_999_999).is_some());
    assert!(Timestamp::from_parts(0, 1_000_000_000).is_none());
    assert!(Timestamp::from_parts(MAX_TIMESTAMP_SECS, 999_999_999).is_some());
    assert!(Timestamp::from_parts(MAX_TIMESTAMP_SECS + 1, 0).is_none());
    assert!(Timestamp::from_parts(MIN_TIMESTAMP_SECS, 0).is_some());
    assert!(Timestamp::from_parts(MIN_TIMESTAMP_SECS - 1, 999_999_999).is_none());
}

#[test]
fn timestamp_parts_round_trip() {
    let t = Timestamp::from_parts(-5, 250).unwrap();
    assert_eq!(t.secs(), -5);
    assert_eq!(t.subsec_nanos(), 250);
    assert_eq!(t.as_nanos(), -4_999_999_750);
}

#[test]
fn adding_a_ttl_moves_the_instant() {
    let t = Timestamp::from_parts(1_700_000_000, 500_000_000).unwrap();
    let later = t.checked_add_ttl(Ttl::new(2, 600_000_000)).unwrap();
    assert_eq!(later.secs(), 1_700_000_003);
    assert_eq!(later.subsec_nanos(), 100_000_000);
    let negative = Timestamp::from_parts(-1, 0).unwrap();
    let moved = negative.checked_add_ttl(Ttl::new(0, 500_000_000)).unwrap();
    assert_eq!(moved.secs(), -1);
    assert_eq!(moved.subsec_nanos(), 500_000_000);
}

#[test]
fn a_ttl_beyond_the_longest_offset_adds_nothing() {
    let t = Timestamp::from_parts(1_000, 0).unwrap();
    let huge = Ttl::from_secs(u64::MAX);
    assert_eq!(t.checked_add_ttl(huge), Some(t));
    let longest = Ttl::new(9_223_372_036_854_775, 807_000_000);
    let edge = Timestamp::from_parts(0, 0).unwrap();
    assert!(edge.checked_add_ttl(longest).is_none());
    let just_over = Ttl::new(9_223_372_036_854_775, 807_000_001);
    assert_eq!(edge.checked_add_ttl(just_over), Some(edge));
}

#[test]
fn adding_past_the_latest_instant_fails() {
    let last = Timestamp::from_parts(MAX_TIMESTAMP_SECS, 999_999_999).unwrap();
    assert!(last.checked_add_ttl(Ttl::new(0, 1)).is_none());
    assert_eq!(last.checked_add_ttl(Ttl::from_secs(0)), Some(last));
}

#[test]
fn whole_seconds_round_toward_zero() {
    let a = Timestamp::from_parts(100, 0).unwrap();
    let b = Timestamp::from_parts(101, 500_000_000).unwrap();
    assert_eq!(a.whole_seconds_until(&b), 1);
    assert_eq!(b.whole_seconds_until(&a), -1);
    assert_eq!(a.remaining_secs_until(&b), 1);
    assert_eq!(b.remaining_secs_until(&a), 0);
    assert!(b.is_after(&a));
    assert!(!a.is_after(&a));
}

#[test]
fn ttl_parts() {
    let t = Ttl::new(3, 5);
    assert_eq!(t.as_secs(), 3);
    assert_eq!(t.subsec_nanos(), 5);
    assert_eq!(t.as_nanos(), 3_000_000_005);
    assert!(t.is_longer_than(&Ttl::from_secs(3)));
    assert!(!Ttl::from_secs(3).is_longer_than(&t));
}

#[test]
fn timestamps_rebuild_from_their_parts() {
    for (secs, nanos) in [(-1i64, 1u32), (0, 0), (1_700_000_000, 999_999_999), (MIN_TIMESTAMP_SECS, 0)] {
        let t = Timestamp::from_parts(secs, nanos).unwrap();
        assert_eq!(Timestamp::from_parts(t.secs(), t.subsec_nanos()), Some(t));
    }
}

use engagement_ledger::time::{Span, Timestamp, NANOS_PER_SECOND, SECONDS_PER_MINUTE};

#[test]
fn timestamp_new_refuses_a_full_second_of_nanos() {
    assert_eq!(Timestamp::new(5, 0), Some(Timestamp { secs: 5, nanos: 0 }));
    assert_eq!(Timestamp::new(-5, 999_999_999), Some(Timestamp { secs: -5, nanos: 999_999_999 }));
    assert_eq!(Timestamp::new(5, 1_000_000_000), None);
    assert_eq!(Timestamp::new(5, u32::MAX), None);
}

#[test]
fn total_nanos_counts_from_the_epoch() {
    assert_eq!(Timestamp { secs: 0, nanos: 0 }.total_nanos(), 0);
    assert_eq!(Timestamp { secs: 2, nanos: 5 }.total_nanos(), 2_000_000_005);
    assert_eq!(Timestamp { secs: -1, nanos: 999_999_999 }.total_nanos(), -1);
    assert_eq!(
        Timestamp { secs: i64::MAX, nanos: 999_999_999 }.total_nanos(),
        i64::MAX as i128 * 1_000_000_000 + 999_999_999
    );
    assert_eq!(Timestamp { secs: i64::MIN, nanos: 0 }.total_nanos(), i64::MIN as i128 * 1_000_000_000);
}

#[test]
fn is_before_is_strict() {
    let a = Timestamp { secs: 1, nanos: 999_999_999 };
    let b = Timestamp { secs: 2, nanos: 0 };
    assert!(a.is_before(&b));
    assert!(!b.is_before(&a));
    assert!(!a.is_before(&a));
    assert!(Timestamp { secs: -3, nanos: 0 }.is_before(&Timestamp { secs: -2, nanos: 0 }));
}

#[test]
fn since_borrows_from_the_seconds() {
    let later = Timestamp { secs: 10, nanos: 100 };
    let earlier = Timestamp { secs: 7, nanos: 900 };
    assert_eq!(later.since(&earlier), Some(Span { secs: 2, nanos: 999_999_200 }));
    assert_eq!(later.since(&later), Some(Span { secs: 0, nanos: 0 }));
    assert_eq!(earlier.since(&later), None);
}

#[test]
fn since_spans_the_whole_range() {
    let first = Timestamp { secs: i64::MIN, nanos: 0 };
    let last = Timestamp { secs: i64::MAX, nanos: 999_999_999 };
    assert_eq!(last.since(&first), Some(Span { secs: u64::MAX, nanos: 999_999_999 }));
}

#[test]
fn span_constructors() {
    assert_eq!(Span::from_seconds(90), Span { secs: 90, nanos: 0 });
    assert_eq!(Span::from_minutes(5), Some(Span { secs: 300, nanos: 0 }));
    assert_eq!(Span::from_minutes(0), Some(Span { secs: 0, nanos: 0 }));
    assert_eq!(Span::from_minutes(u64::MAX / 60), Some(Span { secs: u64::MAX / 60 * 60, nanos: 0 }));
    assert_eq!(Span::from_minutes(u64::MAX / 60 + 1), None);
}

#[test]
fn span_total_nanos_and_whole_minutes() {
    let span = Span { secs: 119, nanos: 999_999_999 };
    assert_eq!(span.total_nanos(), 119_999_999_999);
    assert_eq!(span.whole_minutes(), 1);
    assert_eq!(Span { secs: 120, nanos: 0 }.whole_minutes(), 2);
    assert_eq!(Span { secs: 59, nanos: 999_999_999 }.whole_minutes(), 0);
    assert_eq!(Span { secs: u64::MAX, nanos: 0 }.whole_minutes(), u64::MAX / 60);
}

#[test]
fn unit_constants() {
    assert_eq!(NANOS_PER_SECOND, 1_000_000_000);
    assert_eq!(SECONDS_PER_MINUTE, 60);
}

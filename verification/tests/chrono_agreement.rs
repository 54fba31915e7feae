use chrono::{DateTime, NaiveDateTime, TimeDelta};
use engagement_ledger::accrual::calculate_hours_and_money;
use engagement_ledger::ingest::{default_idle_threshold, is_idle_return};
use engagement_ledger::time::{Span, Timestamp};
use engagement_ledger::user::User;

fn naive(t: &Timestamp) -> NaiveDateTime {
    DateTime::from_timestamp(t.secs, t.nanos).unwrap().naive_utc()
}

fn instants() -> Vec<Timestamp> {
    vec![
        Timestamp { secs: 0, nanos: 0 },
        Timestamp { secs: 1_700_000_000, nanos: 0 },
        Timestamp { secs: 1_700_000_000, nanos: 999_999_999 },
        Timestamp { secs: 1_700_000_300, nanos: 0 },
        Timestamp { secs: 1_700_000_300, nanos: 1 },
        Timestamp { secs: 1_700_003_599, nanos: 500_000_000 },
        Timestamp { secs: 1_800_000_000, nanos: 123_456_789 },
        Timestamp { secs: -86_400, nanos: 250 },
    ]
}

#[test]
fn since_agrees_with_chrono_subtraction() {
    for later in instants() {
        for earlier in instants() {
            let expected = naive(&later) - naive(&earlier);
            match later.since(&earlier) {
                Some(span) => {
                    assert_eq!(span.secs as i64, expected.num_seconds());
                    assert_eq!(span.nanos as i32, expected.subsec_nanos());
                    assert_eq!(span.whole_minutes() as i64, expected.num_minutes());
                }
                None => assert!(expected < TimeDelta::zero()),
            }
        }
    }
}

#[test]
fn is_before_agrees_with_chrono_order() {
    for a in instants() {
        for b in instants() {
            assert_eq!(a.is_before(&b), naive(&a) < naive(&b));
        }
    }
}

#[test]
fn idle_rule_agrees_with_chrono() {
    let threshold = default_idle_threshold();
    for last in instants() {
        for now in instants() {
            let expected = naive(&last) + TimeDelta::minutes(5) < naive(&now);
            assert_eq!(is_idle_return(&last, &now, &threshold), expected);
        }
    }
}

#[test]
fn span_minutes_agree_with_chrono() {
    for minutes in [0u64, 1, 5, 60, 1_000_000] {
        let span = Span::from_minutes(minutes).unwrap();
        let delta = TimeDelta::minutes(minutes as i64);
        assert_eq!(span.secs as i64, delta.num_seconds());
        assert_eq!(span.whole_minutes() as i64, delta.num_minutes());
    }
}

#[test]
fn calculator_agrees_with_chrono_arithmetic() {
    let stored = [(0i64, 0i32, 0i64), (10, 900_000_000, 3), (86_399, 999_999_999, 1_000_000)];
    for (seconds, nanos, money) in stored {
        for last in instants() {
            for now in instants() {
                if now.is_before(&last) {
                    continue;
                }
                let mut user =
                    User::new("c1".to_string(), "Alice".to_string(), seconds, nanos, money, last, last);
                calculate_hours_and_money(&mut user, &now);
                let hours = TimeDelta::seconds(seconds) + TimeDelta::nanoseconds(nanos as i64);
                let gap = naive(&now) - naive(&last);
                let total = hours + gap;
                assert_eq!(user.hours_seconds, total.num_seconds());
                assert_eq!(user.hours_nanos, total.subsec_nanos());
                assert_eq!(user.money, money + gap.num_minutes());
            }
        }
    }
}

use engagement_ledger::accrual::{calculate_hours_and_money, can_accrue};
use engagement_ledger::ingest::{
    can_process, default_idle_threshold, is_idle_return, process_message, Event, Message,
    IDLE_THRESHOLD_MINUTES,
};
use engagement_ledger::store::UserTable;
use engagement_ledger::time::{Span, Timestamp};
use engagement_ledger::user::User;

const T0: i64 = 1_700_000_000;

fn at(secs_after_t0: i64, nanos: u32) -> Timestamp {
    Timestamp { secs: T0 + secs_after_t0, nanos }
}

fn message(channel_id: &str, display_name: &str) -> Message {
    Message { channel_id: channel_id.to_string(), display_name: display_name.to_string() }
}

fn alice_at_t0() -> User {
    User::new("c1".to_string(), "Alice".to_string(), 0, 0, 0, at(0, 0), at(0, 0))
}

fn table_with(user: User) -> UserTable {
    let mut table = UserTable::new();
    table.save(user);
    table
}

#[test]
fn cold_user_first_message() {
    let mut table = UserTable::new();
    let applied = table.ingest(&message("c1", "Alice"), &at(0, 0), &default_idle_threshold());
    assert!(applied);
    assert_eq!(table.len(), 1);
    let user = table.load(&"c1".to_string()).unwrap();
    assert_eq!(user.channel_id, "c1");
    assert_eq!(user.display_name, "Alice");
    assert_eq!(user.hours_seconds, 0);
    assert_eq!(user.hours_nanos, 0);
    assert_eq!(user.money, 0);
    assert_eq!(user.first_seen_at, at(0, 0));
    assert_eq!(user.last_seen_at, at(0, 0));
}

#[test]
fn active_continuation_below_threshold() {
    let mut table = table_with(alice_at_t0());
    let applied = table.ingest(&message("c1", "Alice2"), &at(120, 0), &default_idle_threshold());
    assert!(applied);
    assert_eq!(table.len(), 1);
    let user = table.load(&"c1".to_string()).unwrap();
    assert_eq!(user.channel_id, "c1");
    assert_eq!(user.display_name, "Alice2");
    assert_eq!(user.hours_seconds, 0);
    assert_eq!(user.hours_nanos, 0);
    assert_eq!(user.money, 0);
    assert_eq!(user.first_seen_at, at(0, 0));
    assert_eq!(user.last_seen_at, at(120, 0));
}

#[test]
fn idle_return_above_threshold() {
    let mut table = table_with(alice_at_t0());
    let applied = table.ingest(&message("c1", "Alice"), &at(600, 0), &default_idle_threshold());
    assert!(applied);
    let user = table.load(&"c1".to_string()).unwrap();
    assert_eq!(user.display_name, "Alice");
    assert_eq!(user.hours_seconds, 600);
    assert_eq!(user.hours_nanos, 0);
    assert_eq!(user.money, 10);
    assert_eq!(user.first_seen_at, at(0, 0));
    assert_eq!(user.last_seen_at, at(600, 0));
}

#[test]
fn message_exactly_at_threshold_credits_nothing() {
    let threshold = default_idle_threshold();
    let user = process_message(Some(alice_at_t0()), &message("c1", "Alice"), &at(300, 0), &threshold);
    assert_eq!(user.hours_seconds, 0);
    assert_eq!(user.hours_nanos, 0);
    assert_eq!(user.money, 0);
    assert_eq!(user.last_seen_at, at(300, 0));
    assert!(!is_idle_return(&at(0, 0), &at(300, 0), &threshold));
}

#[test]
fn message_one_nanosecond_past_threshold_credits_the_gap() {
    let threshold = default_idle_threshold();
    let user = process_message(Some(alice_at_t0()), &message("c1", "Alice"), &at(300, 1), &threshold);
    assert_eq!(user.hours_seconds, 300);
    assert_eq!(user.hours_nanos, 1);
    assert_eq!(user.money, 5);
    assert_eq!(user.last_seen_at, at(300, 1));
    assert!(is_idle_return(&at(0, 0), &at(300, 1), &threshold));
}

#[test]
fn message_within_threshold_changes_only_name_and_last_seen() {
    let before = User::new("c1".to_string(), "Alice".to_string(), 4000, 250, 66, at(-50, 7), at(0, 0));
    let user = process_message(
        Some(before),
        &message("c1", "Alicia"),
        &at(299, 999_999_999),
        &default_idle_threshold(),
    );
    assert_eq!(user.channel_id, "c1");
    assert_eq!(user.display_name, "Alicia");
    assert_eq!(user.hours_seconds, 4000);
    assert_eq!(user.hours_nanos, 250);
    assert_eq!(user.money, 66);
    assert_eq!(user.first_seen_at, at(-50, 7));
    assert_eq!(user.last_seen_at, at(299, 999_999_999));
}

#[test]
fn threshold_can_be_configured() {
    let short = Span::from_seconds(60);
    let user = process_message(Some(alice_at_t0()), &message("c1", "Alice"), &at(120, 0), &short);
    assert_eq!(user.hours_seconds, 120);
    assert_eq!(user.money, 2);
    let long = Span::from_minutes(60).unwrap();
    let user = process_message(Some(alice_at_t0()), &message("c1", "Alice"), &at(600, 0), &long);
    assert_eq!(user.hours_seconds, 0);
    assert_eq!(user.money, 0);
}

#[test]
fn default_threshold_is_five_minutes() {
    assert_eq!(IDLE_THRESHOLD_MINUTES, 5);
    assert_eq!(default_idle_threshold(), Span { secs: 300, nanos: 0 });
}

#[test]
fn calculator_carries_nanoseconds_into_seconds() {
    let mut user =
        User::new("c1".to_string(), "Alice".to_string(), 10, 900_000_000, 3, at(0, 0), at(0, 500_000_000));
    calculate_hours_and_money(&mut user, &at(400, 700_000_000));
    // 10.9 s + 400.2 s = 411.1 s; 400 whole seconds are 6 whole minutes
    assert_eq!(user.hours_seconds, 411);
    assert_eq!(user.hours_nanos, 100_000_000);
    assert_eq!(user.money, 9);
    assert_eq!(user.last_seen_at, at(0, 500_000_000));
    assert_eq!(user.display_name, "Alice");
}

#[test]
fn calculator_rounds_minutes_down() {
    let mut user = alice_at_t0();
    calculate_hours_and_money(&mut user, &at(3599, 999_999_999));
    assert_eq!(user.hours_seconds, 3599);
    assert_eq!(user.hours_nanos, 999_999_999);
    assert_eq!(user.money, 59);
}

#[test]
fn calculator_with_no_gap_changes_nothing() {
    let mut user = User::new("c1".to_string(), "Alice".to_string(), 7, 8, 9, at(0, 0), at(5, 0));
    calculate_hours_and_money(&mut user, &at(5, 0));
    assert_eq!(user.hours_seconds, 7);
    assert_eq!(user.hours_nanos, 8);
    assert_eq!(user.money, 9);
}

#[test]
fn hours_nanos_stays_below_one_second() {
    let mut table = UserTable::new();
    let threshold = Span::from_seconds(0);
    let mut now = at(0, 0);
    for step in 0..50 {
        now = Timestamp { secs: now.secs + 1, nanos: (now.nanos + 333_333_333) % 1_000_000_000 };
        assert!(table.ingest(&message("c1", "Alice"), &now, &threshold), "step {}", step);
        let user = table.load(&"c1".to_string()).unwrap();
        assert!(0 <= user.hours_nanos && user.hours_nanos < 1_000_000_000);
        assert!(user.is_valid());
    }
}

#[test]
fn last_seen_is_never_before_first_seen() {
    let mut table = UserTable::new();
    let threshold = default_idle_threshold();
    assert!(table.ingest(&message("c1", "Alice"), &at(10, 5), &threshold));
    assert!(table.ingest(&message("c1", "Alice"), &at(10, 5), &threshold));
    assert!(table.ingest(&message("c1", "Alice"), &at(900, 0), &threshold));
    let user = table.load(&"c1".to_string()).unwrap();
    assert_eq!(user.first_seen_at, at(10, 5));
    assert_eq!(user.last_seen_at, at(900, 0));
    assert!(!user.last_seen_at.is_before(&user.first_seen_at));
}

#[test]
fn counters_never_decrease() {
    let mut table = UserTable::new();
    let threshold = default_idle_threshold();
    let times = [0, 10, 400, 401, 2000, 2300, 2601, 9000];
    let mut seconds = 0;
    let mut money = 0;
    for t in times {
        assert!(table.ingest(&message("c1", "Alice"), &at(t, 0), &threshold));
        let user = table.load(&"c1".to_string()).unwrap();
        assert!(user.hours_seconds >= seconds);
        assert!(user.money >= money);
        seconds = user.hours_seconds;
        money = user.money;
    }
    // credited gaps: 10 -> 400, 401 -> 2000, 2300 -> 2601, 2601 -> 9000
    assert_eq!(seconds, 390 + 1599 + 301 + 6399);
    assert_eq!(money, 6 + 26 + 5 + 106);
}

#[test]
fn last_display_name_wins() {
    let mut table = UserTable::new();
    let events = vec![
        Event { message: message("c1", "Alice"), received_at: at(0, 0) },
        Event { message: message("c2", "Bob"), received_at: at(1, 0) },
        Event { message: message("c1", "Alicia"), received_at: at(2, 0) },
        Event { message: message("c1", "Ali"), received_at: at(3, 0) },
        Event { message: message("c2", "Robert"), received_at: at(4, 0) },
    ];
    let applied = table.ingest_all(&events, &default_idle_threshold());
    assert_eq!(applied, 5);
    assert_eq!(table.len(), 2);
    assert_eq!(table.load(&"c1".to_string()).unwrap().display_name, "Ali");
    assert_eq!(table.load(&"c2".to_string()).unwrap().display_name, "Robert");
}

#[test]
fn first_contact_creates_exactly_one_row() {
    let mut table = table_with(alice_at_t0());
    assert!(!table.check_if_exists(&"c2".to_string()));
    assert!(table.ingest(&message("c2", "Bob"), &at(50, 1), &default_idle_threshold()));
    assert_eq!(table.len(), 2);
    let bob = table.row(1);
    assert_eq!(bob.channel_id, "c2");
    assert_eq!(bob.display_name, "Bob");
    assert_eq!(bob.hours_seconds, 0);
    assert_eq!(bob.hours_nanos, 0);
    assert_eq!(bob.money, 0);
    assert_eq!(bob.first_seen_at, at(50, 1));
    assert_eq!(bob.last_seen_at, at(50, 1));
    let alice = table.row(0);
    assert_eq!(alice.channel_id, "c1");
    assert_eq!(alice.last_seen_at, at(0, 0));
}

#[test]
fn process_message_without_record_starts_from_zero() {
    let user = process_message(None, &message("c9", "Zed"), &at(77, 3), &default_idle_threshold());
    assert_eq!(user.channel_id, "c9");
    assert_eq!(user.display_name, "Zed");
    assert_eq!(user.hours_seconds, 0);
    assert_eq!(user.hours_nanos, 0);
    assert_eq!(user.money, 0);
    assert_eq!(user.first_seen_at, at(77, 3));
    assert_eq!(user.last_seen_at, at(77, 3));
}

#[test]
fn ingest_refuses_a_clock_that_ran_backwards() {
    let mut table = table_with(alice_at_t0());
    let applied = table.ingest(&message("c1", "Alice2"), &at(-1, 0), &default_idle_threshold());
    assert!(!applied);
    let user = table.load(&"c1".to_string()).unwrap();
    assert_eq!(user.display_name, "Alice");
    assert_eq!(user.last_seen_at, at(0, 0));
}

#[test]
fn ingest_refuses_an_empty_channel_id() {
    let mut table = UserTable::new();
    assert!(!table.ingest(&message("", "Nobody"), &at(0, 0), &default_idle_threshold()));
    assert_eq!(table.len(), 0);
}

#[test]
fn ingest_refuses_an_invalid_clock_reading() {
    let mut table = UserTable::new();
    let bad = Timestamp { secs: T0, nanos: 1_000_000_000 };
    assert!(!table.ingest(&message("c1", "Alice"), &bad, &default_idle_threshold()));
    assert_eq!(table.len(), 0);
}

#[test]
fn ingest_refuses_counters_that_would_overflow() {
    let rich = User::new("c1".to_string(), "Alice".to_string(), 5, 0, i64::MAX - 3, at(0, 0), at(0, 0));
    let mut table = table_with(rich);
    let threshold = default_idle_threshold();
    // ten whole minutes would pass the largest balance
    assert!(!can_accrue(table.row(0), &at(600, 0)));
    assert!(!table.ingest(&message("c1", "Alice"), &at(600, 0), &threshold));
    assert_eq!(table.row(0).money, i64::MAX - 3);
    assert_eq!(table.row(0).last_seen_at, at(0, 0));
    // below the threshold nothing is credited, so the message is applied
    assert!(table.ingest(&message("c1", "Alice"), &at(200, 0), &threshold));
    assert_eq!(table.row(0).last_seen_at, at(200, 0));

    let old = User::new("c2".to_string(), "Bob".to_string(), i64::MAX, 999_999_999, 0, at(0, 0), at(0, 0));
    assert!(!can_accrue(&old, &at(0, 1)));
    assert!(can_accrue(&old, &at(0, 0)));
}

#[test]
fn can_process_tells_when_a_message_applies() {
    let threshold = default_idle_threshold();
    let known = Some(alice_at_t0());
    assert!(can_process(&known, &message("c1", "A"), &at(600, 0), &threshold));
    assert!(can_process(&known, &message("c1", "A"), &at(0, 0), &threshold));
    assert!(!can_process(&known, &message("c2", "A"), &at(600, 0), &threshold));
    assert!(!can_process(&known, &message("c1", "A"), &at(-5, 0), &threshold));
    assert!(can_process(&None, &message("c1", "A"), &at(-5, 0), &threshold));
    assert!(!can_process(&None, &message("", "A"), &at(0, 0), &threshold));
    let broken = Some(User::new("c1".to_string(), "A".to_string(), 0, -1, 0, at(0, 0), at(0, 0)));
    assert!(!can_process(&broken, &message("c1", "A"), &at(600, 0), &threshold));
    let bad_threshold = Span { secs: 1, nanos: 2_000_000_000 };
    assert!(!can_process(&None, &message("c1", "A"), &at(0, 0), &bad_threshold));
}

#[test]
fn ingest_all_stops_before_the_first_refused_event() {
    let mut table = UserTable::new();
    let events = vec![
        Event { message: message("c1", "Alice"), received_at: at(100, 0) },
        Event { message: message("c2", "Bob"), received_at: at(101, 0) },
        Event { message: message("c1", "Late"), received_at: at(50, 0) },
        Event { message: message("c3", "Carol"), received_at: at(102, 0) },
    ];
    let applied = table.ingest_all(&events, &default_idle_threshold());
    assert_eq!(applied, 2);
    assert_eq!(table.len(), 2);
    assert_eq!(table.load(&"c1".to_string()).unwrap().display_name, "Alice");
    assert!(!table.check_if_exists(&"c3".to_string()));
}

#[test]
fn ingest_all_of_nothing_changes_nothing() {
    let mut table = table_with(alice_at_t0());
    assert_eq!(table.ingest_all(&Vec::new(), &default_idle_threshold()), 0);
    assert_eq!(table.len(), 1);
}

use engagement_ledger::store::UserTable;
use engagement_ledger::time::Timestamp;
use engagement_ledger::user::User;

fn stamp(secs: i64) -> Timestamp {
    Timestamp { secs, nanos: 0 }
}

fn viewer(channel_id: &str, name: &str, seconds: i64, money: i64) -> User {
    User::new(channel_id.to_string(), name.to_string(), seconds, 0, money, stamp(10), stamp(20))
}

#[test]
fn new_table_is_empty() {
    let table = UserTable::new();
    assert_eq!(table.len(), 0);
    assert!(!table.check_if_exists(&"c1".to_string()));
    assert!(table.load(&"c1".to_string()).is_none());
}

#[test]
fn load_returns_what_was_saved() {
    let mut table = UserTable::new();
    table.save(User::new("c1".to_string(), "Alice".to_string(), 12, 345, 6, stamp(7), stamp(8)));
    let user = table.load(&"c1".to_string()).unwrap();
    assert_eq!(user.channel_id, "c1");
    assert_eq!(user.display_name, "Alice");
    assert_eq!(user.hours_seconds, 12);
    assert_eq!(user.hours_nanos, 345);
    assert_eq!(user.money, 6);
    assert_eq!(user.first_seen_at, stamp(7));
    assert_eq!(user.last_seen_at, stamp(8));
}

#[test]
fn save_replaces_the_record_with_the_same_channel_id() {
    let mut table = UserTable::new();
    table.save(viewer("c1", "Alice", 1, 1));
    table.save(viewer("c2", "Bob", 2, 2));
    table.save(viewer("c1", "Alicia", 10, 11));
    assert_eq!(table.len(), 2);
    let alice = table.load(&"c1".to_string()).unwrap();
    assert_eq!(alice.display_name, "Alicia");
    assert_eq!(alice.hours_seconds, 10);
    assert_eq!(alice.money, 11);
    let bob = table.load(&"c2".to_string()).unwrap();
    assert_eq!(bob.display_name, "Bob");
    // the record keeps its place
    assert_eq!(table.row(0).channel_id, "c1");
    assert_eq!(table.row(1).channel_id, "c2");
}

#[test]
fn save_is_idempotent() {
    let mut table = UserTable::new();
    table.save(viewer("c1", "Alice", 1, 1));
    table.save(viewer("c1", "Alice", 1, 1));
    assert_eq!(table.len(), 1);
    assert_eq!(table.load(&"c1".to_string()).unwrap().display_name, "Alice");
}

#[test]
fn check_if_exists_compares_channel_ids_exactly() {
    let mut table = UserTable::new();
    table.save(viewer("c1", "Alice", 1, 1));
    assert!(table.check_if_exists(&"c1".to_string()));
    assert!(!table.check_if_exists(&"C1".to_string()));
    assert!(!table.check_if_exists(&"c1 ".to_string()));
    assert!(!table.check_if_exists(&"Alice".to_string()));
}

#[test]
fn clone_copies_every_field() {
    let user = User::new("c1".to_string(), "Alice".to_string(), 12, 345, 6, stamp(7), stamp(8));
    let copy = user.clone();
    assert_eq!(copy.channel_id, "c1");
    assert_eq!(copy.display_name, "Alice");
    assert_eq!(copy.hours_seconds, 12);
    assert_eq!(copy.hours_nanos, 345);
    assert_eq!(copy.money, 6);
    assert_eq!(copy.first_seen_at, stamp(7));
    assert_eq!(copy.last_seen_at, stamp(8));
}

#[test]
fn is_valid_checks_every_part_of_the_invariant() {
    assert!(viewer("c1", "Alice", 0, 0).is_valid());
    assert!(!viewer("", "Alice", 0, 0).is_valid());
    assert!(!viewer("c1", "Alice", -1, 0).is_valid());
    assert!(!viewer("c1", "Alice", 0, -1).is_valid());
    let ok = |nanos: i32| {
        User::new("c1".to_string(), "A".to_string(), 0, nanos, 0, stamp(1), stamp(1)).is_valid()
    };
    assert!(ok(0));
    assert!(ok(999_999_999));
    assert!(!ok(1_000_000_000));
    assert!(!ok(-1));
    let seen = |first: Timestamp, last: Timestamp| {
        User::new("c1".to_string(), "A".to_string(), 0, 0, 0, first, last).is_valid()
    };
    assert!(seen(stamp(5), stamp(5)));
    assert!(!seen(stamp(6), stamp(5)));
    assert!(!seen(Timestamp { secs: 5, nanos: 1_000_000_000 }, stamp(9)));
    assert!(!seen(stamp(5), Timestamp { secs: 9, nanos: 1_000_000_000 }));
}

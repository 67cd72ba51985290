use truelayer_rust::text::{decimal, join};
use truelayer_rust::time::{Interval, Timestamp};

#[test]
fn instants_are_counted_in_nanoseconds() {
    assert_eq!(Timestamp::from_unix(0, 0).nanos, 0);
    assert_eq!(Timestamp::from_unix(1, 5).nanos, 1_000_000_005);
    assert_eq!(Timestamp::from_unix(-1, 999_999_999).nanos, -1);
    assert_eq!(
        Timestamp::from_unix(i64::MAX, u32::MAX).nanos,
        i64::MAX as i128 * 1_000_000_000 + u32::MAX as i128
    );
    assert_eq!(Timestamp::from_unix(i64::MIN, 0).nanos, i64::MIN as i128 * 1_000_000_000);
}

#[test]
fn instants_are_split_into_seconds_and_nanoseconds() {
    assert_eq!(Timestamp { nanos: 0 }.to_unix(), Some((0, 0)));
    assert_eq!(Timestamp { nanos: 1_999_999_999 }.to_unix(), Some((1, 999_999_999)));
    assert_eq!(Timestamp { nanos: -1 }.to_unix(), Some((-1, 999_999_999)));
    assert_eq!(Timestamp { nanos: -1_000_000_000 }.to_unix(), Some((-1, 0)));
    assert_eq!(Timestamp { nanos: -1_000_000_001 }.to_unix(), Some((-2, 999_999_999)));
    assert_eq!(Timestamp::from_unix(i64::MAX, 999_999_999).to_unix(), Some((i64::MAX, 999_999_999)));
    assert_eq!(Timestamp::from_unix(i64::MIN, 0).to_unix(), Some((i64::MIN, 0)));
    assert_eq!(Timestamp { nanos: (i64::MAX as i128 + 1) * 1_000_000_000 }.to_unix(), None);
    assert_eq!(Timestamp { nanos: i64::MIN as i128 * 1_000_000_000 - 1 }.to_unix(), None);
    assert_eq!(Timestamp { nanos: i128::MAX }.to_unix(), None);
    assert_eq!(Timestamp { nanos: i128::MIN }.to_unix(), None);
}

#[test]
fn instants_are_written_as_date_and_time() {
    assert_eq!(Timestamp::from_unix(0, 0).to_rfc3339().as_deref(), Some("1970-01-01T00:00:00.000Z"));
    assert_eq!(
        Timestamp::from_unix(1_700_000_000, 987_654_321).to_rfc3339().as_deref(),
        Some("2023-11-14T22:13:20.987Z")
    );
    assert_eq!(
        Timestamp::from_unix(-1, 500_000_000).to_rfc3339().as_deref(),
        Some("1969-12-31T23:59:59.500Z")
    );
    assert_eq!(Timestamp::from_unix(i64::MAX, 0).to_rfc3339(), None);
    assert_eq!(Timestamp { nanos: i128::MIN }.to_rfc3339(), None);
}

#[test]
fn seconds_are_added_to_instants() {
    let t = Timestamp::from_unix(100, 7);
    assert_eq!(t.checked_add_secs(3600), Some(Timestamp::from_unix(3700, 7)));
    assert_eq!(t.checked_add_secs(-200), Some(Timestamp::from_unix(-100, 7)));
    assert_eq!(t.checked_add_secs(0), Some(t));
    assert_eq!(t.add_secs(3600), Timestamp::from_unix(3700, 7));
    assert_eq!(t.add_secs(-200), Timestamp::from_unix(-100, 7));
    assert_eq!(Timestamp { nanos: i128::MAX }.checked_add_secs(1), None);
    assert_eq!(Timestamp { nanos: i128::MIN }.checked_add_secs(-1), None);
    assert!(Timestamp { nanos: i128::MAX }.checked_add_secs(-1).is_some());
}

#[test]
fn instants_are_compared() {
    let a = Timestamp::from_unix(5, 1);
    let b = Timestamp::from_unix(5, 2);
    assert!(b.is_at_or_after(&a));
    assert!(a.is_at_or_after(&a));
    assert!(!a.is_at_or_after(&b));
}

#[test]
fn time_between_instants() {
    let a = Timestamp::from_unix(5, 1);
    let b = Timestamp::from_unix(7, 0);
    assert_eq!(b.saturating_since(&a), Interval { nanos: 1_999_999_999 });
    assert_eq!(a.saturating_since(&b), Interval { nanos: 0 });
    assert_eq!(a.saturating_since(&a), Interval { nanos: 0 });
    assert_eq!(
        Timestamp::from_unix(3, 0).saturating_since(&Timestamp::from_unix(-2, 0)),
        Interval { nanos: 5_000_000_000 }
    );
    assert_eq!(
        Timestamp::from_unix(-2, 0).saturating_since(&Timestamp::from_unix(-3, 0)),
        Interval { nanos: 1_000_000_000 }
    );
    assert_eq!(
        Timestamp { nanos: i128::MAX }.saturating_since(&Timestamp { nanos: i128::MIN }),
        Interval { nanos: u128::MAX }
    );
}

#[test]
fn the_clock_is_read() {
    let a = Timestamp::now();
    let b = Timestamp::now();
    // After 2020, before 2200, and not running backwards by more than a second
    assert!(a.nanos > 1_577_836_800 * 1_000_000_000);
    assert!(a.nanos < 7_258_118_400 * 1_000_000_000);
    assert!(b.nanos + 1_000_000_000 >= a.nanos);
    assert!(a.to_unix().is_some());
}

#[test]
fn intervals() {
    assert_eq!(Interval::from_secs(0), Interval { nanos: 0 });
    assert_eq!(Interval::from_secs(30), Interval { nanos: 30_000_000_000 });
    assert_eq!(Interval::from_secs(u64::MAX).nanos, u64::MAX as u128 * 1_000_000_000);
    let short = Interval { nanos: 1 };
    let long = Interval { nanos: 2 };
    assert_eq!(short.max(long), long);
    assert_eq!(long.max(short), long);
    assert_eq!(long.max(long), long);
    assert_eq!(Interval { nanos: 2_500_000_001 }.as_secs(), 2);
    assert_eq!(Interval { nanos: 2_500_000_001 }.subsec_nanos(), 500_000_001);
    assert_eq!(Interval { nanos: 999_999_999 }.as_secs(), 0);
}

#[test]
fn numbers_in_decimal() {
    assert_eq!(decimal(0), "0");
    assert_eq!(decimal(7), "7");
    assert_eq!(decimal(10), "10");
    assert_eq!(decimal(404), "404");
    assert_eq!(decimal(1234567890), "1234567890");
    assert_eq!(decimal(u64::MAX), "18446744073709551615");
}

#[test]
fn lists_are_joined() {
    assert_eq!(join(&vec![], ", "), "");
    assert_eq!(join(&vec!["one".to_string()], ", "), "one");
    assert_eq!(join(&vec!["one".to_string(), "two".to_string(), "three".to_string()], ", "), "one, two, three");
    assert_eq!(join(&vec!["".to_string(), "".to_string()], "-"), "-");
}

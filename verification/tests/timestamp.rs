use venv_cleaner::timestamp::Timestamp;

#[test]
fn parts_and_nanoseconds() {
    assert_eq!(Timestamp::from_parts(0, 0).nanos, 0);
    assert_eq!(Timestamp::from_parts(1, 5).nanos, 1_000_000_005);
    assert_eq!(Timestamp::from_parts(-1, 5).nanos, -999_999_995);
    assert_eq!(Timestamp::from_nanos(42).nanos, 42);

    assert_eq!(Timestamp::from_nanos(1_000_000_005).to_parts(), Some((1, 5)));
    assert_eq!(Timestamp::from_nanos(-999_999_995).to_parts(), Some((-1, 5)));
    assert_eq!(Timestamp::from_nanos(-1_000_000_000).to_parts(), Some((-1, 0)));
    assert_eq!(Timestamp::from_nanos(-1).to_parts(), Some((-1, 999_999_999)));
    assert_eq!(Timestamp::from_nanos(i128::MAX).to_parts(), None);
    assert_eq!(Timestamp::from_nanos(i128::MIN).to_parts(), None);
    let edge = Timestamp::from_parts(i64::MAX, 999_999_999);
    assert_eq!(edge.to_parts(), Some((i64::MAX, 999_999_999)));
    assert_eq!(Timestamp::from_parts(i64::MIN, 0).to_parts(), Some((i64::MIN, 0)));
}

#[test]
fn order_of_instants() {
    let a = Timestamp::from_parts(10, 0);
    let b = Timestamp::from_parts(10, 1);
    assert!(a.is_before(&b));
    assert!(!b.is_before(&a));
    assert!(!a.is_before(&a));
    assert!(b.is_after(&a));
    assert!(!a.is_after(&b));
    assert!(!a.is_after(&a));
}

#[test]
fn days_back_and_days_between() {
    let day: i128 = 86_400_000_000_000;
    let now = Timestamp::from_parts(1_700_000_000, 123);
    assert_eq!(now.minus_days(0), now);
    assert_eq!(now.minus_days(10).nanos, now.nanos - 10 * day);
    assert_eq!(Timestamp::from_nanos(i128::MIN + 5).minus_days(1).nanos, i128::MIN);

    assert_eq!(now.days_since(&now.minus_days(15)), 15);
    assert_eq!(now.minus_days(15).days_since(&now), -15);
    assert_eq!(now.days_since(&Timestamp::from_nanos(now.nanos - day + 1)), 0);
    assert_eq!(Timestamp::from_nanos(now.nanos - day + 1).days_since(&now), 0);
    // spans too long to count are held to the range of the result
    let first = Timestamp::from_nanos(i128::MIN);
    let last = Timestamp::from_nanos(i128::MAX);
    assert_eq!(last.days_since(&first), i64::MAX);
    assert_eq!(first.days_since(&last), i64::MIN);
    assert_eq!(Timestamp::from_nanos(0).days_since(&first), i64::MAX);
    assert_eq!(first.days_since(&Timestamp::from_nanos(0)), i64::MIN);
}

#[test]
fn within_and_older() {
    let day: i128 = 86_400_000_000_000;
    let now = Timestamp::from_parts(1_700_000_000, 0);
    let t = Timestamp::from_nanos(now.nanos - 30 * day);
    assert!(!t.within_days(&now, 30));
    assert!(t.within_days(&now, 31));
    assert!(!t.older_than_days(&now, 30));
    assert!(t.older_than_days(&now, 29));
    // at the far ends of the range
    let last = Timestamp::from_nanos(i128::MAX);
    assert!(last.within_days(&now, 30));
    assert!(!last.older_than_days(&now, 30));
    let first = Timestamp::from_nanos(i128::MIN);
    assert!(!first.within_days(&now, 30));
    assert!(first.older_than_days(&now, 30));
}

#[test]
fn the_clock_is_read() {
    let now = Timestamp::now();
    // later than the first of January 2024, earlier than the year 2200
    assert!(now.nanos > 1_704_067_200i128 * 1_000_000_000);
    assert!(now.nanos < 7_258_118_400i128 * 1_000_000_000);
    let later = Timestamp::now();
    assert!(!later.is_before(&now));
}

#[test]
fn dates_that_cannot_be_shown() {
    assert_eq!(Timestamp::from_nanos(i128::MAX).formatted(), "unknown");
    assert_eq!(Timestamp::from_parts(i64::MAX, 0).formatted(), "unknown");
    assert_eq!(Timestamp::date_text(None), "unknown");
    assert_eq!(Timestamp::date_text(Some("2024-01-01 00:00:00".to_string())), "2024-01-01 00:00:00");
}

#[test]
fn dates_differ_with_the_instant() {
    let a = Timestamp::from_parts(1_700_000_000, 0).formatted();
    let b = Timestamp::from_parts(1_700_000_000 + 86_400 * 400, 0).formatted();
    assert_eq!(a.len(), 19);
    assert_eq!(b.len(), 19);
    assert_ne!(a, b);
    assert!(a.starts_with("2023-11-1"));
}

#[test]
fn the_clock_gives_seconds_and_nanoseconds() {
    let now = Timestamp::now();
    let (secs, subsec) = now.to_parts().unwrap();
    assert_eq!(Timestamp::from_parts(secs, subsec), now);
    assert!(subsec < 2_000_000_000);
}

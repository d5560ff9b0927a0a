use chrono::{DateTime, Utc};
use dracoon::time::{MAX_SECONDS, MIN_SECONDS, NANOS_PER_SECOND};
use dracoon::Timestamp;

fn at(secs: i64, nanos: u32) -> Timestamp {
    Timestamp::new(secs, nanos).unwrap()
}

#[test]
fn range_is_that_of_chrono() {
    assert_eq!(MIN_SECONDS, DateTime::<Utc>::MIN_UTC.timestamp());
    assert_eq!(MAX_SECONDS, DateTime::<Utc>::MAX_UTC.timestamp());
    assert!(DateTime::from_timestamp(MIN_SECONDS, 0).is_some());
    assert!(DateTime::from_timestamp(MIN_SECONDS - 1, 999_999_999).is_none());
    assert!(DateTime::from_timestamp(MAX_SECONDS, 999_999_999).is_some());
    assert!(DateTime::from_timestamp(MAX_SECONDS + 1, 0).is_none());
}

#[test]
fn new_accepts_exactly_the_representable() {
    assert!(Timestamp::new(0, 0).is_some());
    assert!(Timestamp::new(MIN_SECONDS, 0).is_some());
    assert!(Timestamp::new(MAX_SECONDS, NANOS_PER_SECOND - 1).is_some());
    assert!(Timestamp::new(MIN_SECONDS - 1, 0).is_none());
    assert!(Timestamp::new(MAX_SECONDS + 1, 0).is_none());
    assert!(Timestamp::new(0, NANOS_PER_SECOND).is_none());
    assert!(Timestamp::new(59, 1_500_000_000).is_none());
    assert!(Timestamp::new(i64::MIN, 0).is_none());
    assert!(Timestamp::new(i64::MAX, u32::MAX).is_none());
}

#[test]
fn parts_come_back() {
    let t = at(1_431_648_000, 42);
    assert_eq!(t.secs(), 1_431_648_000);
    assert_eq!(t.nanos(), 42);
    let early = at(-1, 999_999_999);
    assert_eq!(early.secs(), -1);
    assert_eq!(early.nanos(), 999_999_999);
}

#[test]
fn seconds_since_counts_whole_seconds() {
    assert_eq!(at(100, 0).seconds_since(&at(40, 0)), 60);
    assert_eq!(at(100, 999_999_999).seconds_since(&at(40, 0)), 60);
    assert_eq!(at(100, 0).seconds_since(&at(40, 1)), 59);
    assert_eq!(at(100, 5).seconds_since(&at(100, 5)), 0);
    assert_eq!(at(0, 0).seconds_since(&at(-86_400, 0)), 86_400);
}

#[test]
fn seconds_since_rounds_toward_zero() {
    assert_eq!(at(40, 0).seconds_since(&at(100, 0)), -60);
    assert_eq!(at(40, 1).seconds_since(&at(100, 0)), -59);
    assert_eq!(at(40, 0).seconds_since(&at(100, 999_999_999)), -60);
    assert_eq!(at(99, 500_000_000).seconds_since(&at(100, 0)), 0);
    assert_eq!(at(-1, 999_999_999).seconds_since(&at(0, 0)), 0);
}

#[test]
fn seconds_since_spans_the_whole_range() {
    let first = at(MIN_SECONDS, 0);
    let last = at(MAX_SECONDS, 999_999_999);
    assert_eq!(last.seconds_since(&first), MAX_SECONDS - MIN_SECONDS);
    assert_eq!(first.seconds_since(&last), MIN_SECONDS - MAX_SECONDS);
}

#[test]
fn reading_of_the_system_clock_is_representable() {
    let first = Utc::now();
    let second = Utc::now();
    let earlier = Timestamp::new(first.timestamp(), first.timestamp_subsec_nanos()).unwrap();
    let later = Timestamp::new(second.timestamp(), second.timestamp_subsec_nanos()).unwrap();
    assert_eq!(earlier.secs(), first.timestamp());
    assert_eq!(earlier.nanos(), first.timestamp_subsec_nanos());
    assert_eq!(later.seconds_since(&earlier), (second - first).num_seconds());
    assert_eq!(earlier.seconds_since(&later), (first - second).num_seconds());
}

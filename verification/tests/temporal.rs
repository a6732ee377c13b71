use chrono::{DateTime, Duration, Utc};
use vestige::{
    timestamp_of_reading, ClockReading, TemporalRange, TemporalValidity, TimeSpan, Timestamp,
    MAX_TIMESTAMP_SECS, MIN_TIMESTAMP_SECS,
};

fn ts(dt: DateTime<Utc>) -> Timestamp {
    Timestamp::new(dt.timestamp(), dt.timestamp_subsec_nanos()).unwrap()
}

fn span(d: Duration) -> TimeSpan {
    TimeSpan { secs: d.num_seconds(), nanos: d.subsec_nanos() }
}

#[test]
fn test_temporal_range_contains() {
    let now = Utc::now();
    let yesterday = now - Duration::days(1);
    let tomorrow = now + Duration::days(1);

    let range = TemporalRange::between(ts(yesterday), ts(tomorrow));
    assert!(range.contains(ts(now)));
    assert!(range.contains(ts(yesterday)));
    assert!(range.contains(ts(tomorrow)));
    assert!(!range.contains(ts(now - Duration::days(2))));
}

#[test]
fn test_temporal_range_overlaps() {
    let now = Utc::now();
    let r1 = TemporalRange::between(ts(now - Duration::days(2)), ts(now));
    let r2 = TemporalRange::between(ts(now - Duration::days(1)), ts(now + Duration::days(1)));
    let r3 = TemporalRange::between(ts(now + Duration::days(2)), ts(now + Duration::days(3)));

    assert!(r1.overlaps(&r2));
    assert!(!r1.overlaps(&r3));
}

#[test]
fn test_temporal_validity() {
    let now = Utc::now();
    let yesterday = now - Duration::days(1);
    let tomorrow = now + Duration::days(1);

    assert_eq!(
        TemporalValidity::from_bounds_at(None, None, ts(now)),
        TemporalValidity::Eternal
    );
    assert_eq!(
        TemporalValidity::from_bounds_at(Some(ts(yesterday)), None, ts(now)),
        TemporalValidity::Current
    );
    assert_eq!(
        TemporalValidity::from_bounds_at(Some(ts(tomorrow)), None, ts(now)),
        TemporalValidity::Future
    );
    assert_eq!(
        TemporalValidity::from_bounds_at(None, Some(ts(yesterday)), ts(now)),
        TemporalValidity::Past
    );
    assert_eq!(
        TemporalValidity::from_bounds_at(Some(ts(yesterday)), Some(ts(tomorrow)), ts(now)),
        TemporalValidity::Bounded
    );
}

#[test]
fn test_validity_is_valid() {
    assert!(TemporalValidity::Eternal.is_valid());
    assert!(TemporalValidity::Current.is_valid());
    assert!(TemporalValidity::Bounded.is_valid());
    assert!(!TemporalValidity::Past.is_valid());
    assert!(!TemporalValidity::Future.is_valid());
}

#[test]
fn test_range_from() {
    let now = Utc::now();
    let start = now + Duration::days(10);
    let range = TemporalRange::from(ts(start));
    assert_eq!(range.start, Some(ts(start)));
    assert_eq!(range.end, None);
    assert!(range.contains(ts(start)));
    assert!(!range.contains(ts(start - Duration::days(1))));
    assert!(range.contains(ts(start + Duration::days(1000))));
    assert_eq!(range.duration(), None);
}

#[test]
fn test_range_until() {
    let now = Utc::now();
    let end = now + Duration::days(20);
    let range = TemporalRange::until(ts(end));
    assert_eq!(range.start, None);
    assert_eq!(range.end, Some(ts(end)));
    assert!(range.contains(ts(end)));
    assert!(!range.contains(ts(end + Duration::days(1))));
    assert!(range.contains(ts(now - Duration::days(100))));
    assert_eq!(range.duration(), None);
}

#[test]
fn test_range_all() {
    let now = Utc::now();
    let range = TemporalRange::all();
    assert_eq!(range.start, None);
    assert_eq!(range.end, None);
    assert!(range.contains(ts(now)));
    assert!(range.contains(ts(now + Duration::days(100_000))));
    assert_eq!(range.duration(), None);
}

#[test]
fn test_range_duration() {
    let now = Utc::now();
    let start = now + Duration::days(5);
    let end = now + Duration::days(15);
    let range = TemporalRange::between(ts(start), ts(end));
    assert_eq!(range.duration(), Some(span(Duration::days(10))));
    let from_range = TemporalRange::from(ts(start));
    assert_eq!(from_range.duration(), None);
    let until_range = TemporalRange::until(ts(end));
    assert_eq!(until_range.duration(), None);
}

#[test]
fn test_range_default() {
    let now = Utc::now();
    let default_range = TemporalRange::default();
    let all_range = TemporalRange::all();
    assert_eq!(default_range.start, None);
    assert_eq!(default_range.end, None);
    assert_eq!(default_range.start, all_range.start);
    assert_eq!(default_range.end, all_range.end);
    assert!(default_range.contains(ts(now)));
    assert_eq!(default_range.contains(ts(now)), all_range.contains(ts(now)));
}


#[test]
fn timestamp_new_refuses_what_chrono_cannot_represent() {
    // A leap-second nanosecond count is only allowed in the last second of a minute.
    assert!(Timestamp::new(59, 1_500_000_000).is_some());
    assert!(Timestamp::new(58, 1_500_000_000).is_none());
    assert!(Timestamp::new(0, 2_000_000_000).is_none());
    assert!(Timestamp::new(i64::MAX, 0).is_none());
    let t = Timestamp::new(1_431_648_000, 7).unwrap();
    assert_eq!(t.secs(), 1_431_648_000);
    assert_eq!(t.nanos(), 7);
}

#[test]
fn timestamp_ordering_uses_nanoseconds() {
    let a = Timestamp::new(100, 5).unwrap();
    let b = Timestamp::new(100, 6).unwrap();
    let c = Timestamp::new(101, 0).unwrap();
    assert!(a.le(&a) && a.le(&b) && b.le(&c));
    assert!(a.lt(&b) && !b.lt(&a) && !a.lt(&a));
    assert!(!c.le(&b));
}

#[test]
fn duration_exact_values() {
    let s = Timestamp::new(10, 250_000_000).unwrap();
    let e = Timestamp::new(12, 0).unwrap();
    let forward = TemporalRange::between(s, e).duration().unwrap();
    assert_eq!(forward, TimeSpan { secs: 1, nanos: 750_000_000 });
    let backward = TemporalRange::between(e, s).duration().unwrap();
    assert_eq!(backward, TimeSpan { secs: -1, nanos: -750_000_000 });
}

#[test]
fn duration_counts_a_leap_second() {
    // 23:59:60.5 on 1970-01-01 to 00:00:01.0 on the next day: chrono counts
    // the leap second as a second of its own.
    let leap = Timestamp::new(86_399, 1_500_000_000).unwrap();
    let after = Timestamp::new(86_401, 0).unwrap();
    let d = TemporalRange::between(leap, after).duration().unwrap();
    let dl = DateTime::from_timestamp(86_399, 1_500_000_000).unwrap();
    let da = DateTime::from_timestamp(86_401, 0).unwrap();
    assert_eq!(d, span(da - dl));
    // Within a day, a leap second in the start adds a second.
    let in_day_leap = Timestamp::new(59, 1_000_000_000).unwrap();
    let later = Timestamp::new(61, 0).unwrap();
    let d2 = TemporalRange::between(in_day_leap, later).duration().unwrap();
    assert_eq!(d2, TimeSpan { secs: 2, nanos: 0 });
}

#[test]
fn overlap_is_symmetric_and_bounds_are_inclusive() {
    let a = Timestamp::new(0, 0).unwrap();
    let b = Timestamp::new(10, 0).unwrap();
    let c = Timestamp::new(20, 0).unwrap();
    let r1 = TemporalRange::between(a, b);
    let r2 = TemporalRange::between(b, c);
    // Touching at one instant counts as overlapping.
    assert!(r1.overlaps(&r2) && r2.overlaps(&r1));
    let r3 = TemporalRange::from(Timestamp::new(10, 1).unwrap());
    assert!(!r1.overlaps(&r3) && !r3.overlaps(&r1));
    assert!(TemporalRange::all().overlaps(&r3));
    assert!(TemporalRange::until(a).overlaps(&r1));
}

#[test]
fn validity_agrees_with_range_containment() {
    let a = Timestamp::new(100, 0).unwrap();
    let b = Timestamp::new(200, 0).unwrap();
    for secs in [50i64, 100, 150, 200, 250] {
        let t = Timestamp::new(secs, 0).unwrap();
        for (from, until) in [(None, None), (Some(a), None), (None, Some(b)), (Some(a), Some(b))] {
            let valid = TemporalValidity::from_bounds_at(from, until, t).is_valid();
            let range = TemporalRange { start: from, end: until };
            assert_eq!(valid, range.contains(t));
        }
    }
    assert_eq!(
        TemporalValidity::from_bounds_at(Some(a), Some(b), Timestamp::new(250, 0).unwrap()),
        TemporalValidity::Past
    );
}

#[test]
fn from_bounds_uses_the_present() {
    let now = Utc::now();
    let past = ts(now - Duration::days(1));
    let future = ts(now + Duration::days(1));
    assert_eq!(TemporalValidity::from_bounds(None, None), Some(TemporalValidity::Eternal));
    assert_eq!(TemporalValidity::from_bounds(Some(past), None), Some(TemporalValidity::Current));
    assert_eq!(TemporalValidity::from_bounds(Some(future), None), Some(TemporalValidity::Future));
    assert_eq!(TemporalValidity::from_bounds(None, Some(past)), Some(TemporalValidity::Past));
    assert_eq!(
        TemporalValidity::from_bounds(Some(past), Some(future)),
        Some(TemporalValidity::Bounded)
    );
}

#[test]
fn chrono_range_limits() {
    assert!(Timestamp::new(MIN_TIMESTAMP_SECS, 0).is_some());
    assert!(Timestamp::new(MIN_TIMESTAMP_SECS - 1, 999_999_999).is_none());
    assert!(Timestamp::new(MAX_TIMESTAMP_SECS, 999_999_999).is_some());
    assert!(Timestamp::new(MAX_TIMESTAMP_SECS + 1, 0).is_none());
    assert_eq!(DateTime::<Utc>::MIN_UTC.timestamp(), MIN_TIMESTAMP_SECS);
    assert_eq!(DateTime::<Utc>::MAX_UTC.timestamp(), MAX_TIMESTAMP_SECS);
}

#[test]
fn clock_readings_become_instants_as_chrono_converts_them() {
    let after = timestamp_of_reading(ClockReading::AtOrAfterEpoch { secs: 5, nanos: 250_000_000 });
    assert_eq!(after, Timestamp::new(5, 250_000_000));
    let before = timestamp_of_reading(ClockReading::BeforeEpoch { secs: 5, nanos: 250_000_000 });
    assert_eq!(before, Timestamp::new(-6, 750_000_000));
    let st = std::time::UNIX_EPOCH - std::time::Duration::new(5, 250_000_000);
    let dt = DateTime::<Utc>::from(st);
    assert_eq!(before, Timestamp::new(dt.timestamp(), dt.timestamp_subsec_nanos()));
    let exact = timestamp_of_reading(ClockReading::BeforeEpoch { secs: 7, nanos: 0 });
    assert_eq!(exact, Timestamp::new(-7, 0));
    assert_eq!(
        timestamp_of_reading(ClockReading::AtOrAfterEpoch { secs: u64::MAX, nanos: 0 }),
        None
    );
    assert_eq!(
        timestamp_of_reading(ClockReading::BeforeEpoch { secs: u64::MAX, nanos: 0 }),
        None
    );
}

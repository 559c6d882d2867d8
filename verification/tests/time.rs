use chrono::{DateTime, TimeDelta, Utc};
use cloudmesh::time::{
    seconds_since, Timestamp, MAX_DELTA_SECS, MAX_TIMESTAMP_SECS, MIN_TIMESTAMP_SECS,
};

fn ts(secs: i64, nanos: u32) -> Timestamp {
    Timestamp::from_parts(secs, nanos).expect("valid instant")
}

fn chrono_of(t: Timestamp) -> DateTime<Utc> {
    DateTime::from_timestamp(t.secs, t.nanos).expect("in range")
}

#[test]
fn bounds_are_those_of_utc_date_times() {
    assert_eq!(DateTime::<Utc>::MIN_UTC.timestamp(), MIN_TIMESTAMP_SECS);
    assert_eq!(DateTime::<Utc>::MAX_UTC.timestamp(), MAX_TIMESTAMP_SECS);
    assert!(Timestamp::from_parts(MIN_TIMESTAMP_SECS - 1, 0).is_none());
    assert!(Timestamp::from_parts(MAX_TIMESTAMP_SECS + 1, 0).is_none());
    assert!(Timestamp::from_parts(0, 1_000_000_000).is_none());
    assert!(TimeDelta::try_seconds(MAX_DELTA_SECS).is_some());
    assert!(TimeDelta::try_seconds(MAX_DELTA_SECS + 1).is_none());
}

#[test]
fn whole_seconds_between_round_toward_zero() {
    let pairs = [
        (ts(10, 0), ts(0, 500_000_000), 9),
        (ts(0, 0), ts(1, 500_000_000), -1),
        (ts(100, 999_999_999), ts(100, 0), 0),
        (ts(-5, 0), ts(-5, 1), 0),
        (ts(1_700_000_030, 1), ts(1_700_000_000, 2), 29),
        (ts(MAX_TIMESTAMP_SECS, 999_999_999), ts(MIN_TIMESTAMP_SECS, 0), MAX_TIMESTAMP_SECS - MIN_TIMESTAMP_SECS),
        (ts(MIN_TIMESTAMP_SECS, 0), ts(MAX_TIMESTAMP_SECS, 999_999_999), MIN_TIMESTAMP_SECS - MAX_TIMESTAMP_SECS),
    ];
    for (later, earlier, expected) in pairs {
        assert_eq!(seconds_since(later, earlier), expected);
        assert_eq!(
            chrono_of(later).signed_duration_since(chrono_of(earlier)).num_seconds(),
            expected
        );
    }
}

#[test]
fn subtracting_seconds_matches_chrono() {
    let t = ts(1_700_000_000, 123_456_789);
    let earlier = t.minus_seconds(3600);
    assert_eq!(earlier, ts(1_699_996_400, 123_456_789));
    assert_eq!(chrono_of(earlier), chrono_of(t) - TimeDelta::hours(1));
}

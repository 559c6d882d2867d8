use chrono::Duration;
use cloudmesh::models::MetricsRange;

#[test]
fn test_valid_ranges() {
    let cases = [
        ("5m", MetricsRange::FiveMinutes, Duration::minutes(5)),
        ("15m", MetricsRange::FifteenMinutes, Duration::minutes(15)),
        ("30m", MetricsRange::ThirtyMinutes, Duration::minutes(30)),
        ("1h", MetricsRange::OneHour, Duration::hours(1)),
        ("6h", MetricsRange::SixHours, Duration::hours(6)),
        ("12h", MetricsRange::TwelveHours, Duration::hours(12)),
        ("24h", MetricsRange::TwentyFourHours, Duration::hours(24)),
        ("7d", MetricsRange::SevenDays, Duration::days(7)),
    ];

    for (input, expected_variant, expected_duration) in cases {
        let parsed = MetricsRange::parse(input).expect("should parse valid range");
        assert_eq!(parsed, expected_variant);
        assert_eq!(parsed.as_str(), input);
        assert_eq!(parsed.duration(), expected_duration);
        assert_eq!(input.parse::<MetricsRange>().unwrap(), expected_variant);
    }
}

#[test]
fn test_invalid_ranges() {
    let invalid_cases = [
        "",
        "abc",
        "999h",
        "-1h",
        "1hour",
        "today",
        "5M",
        "1H",
        "2d",
        "10m",
        " 1h",
        "1h ",
    ];

    for invalid in invalid_cases {
        let err = MetricsRange::parse(invalid);
        assert!(err.is_err(), "Expected error for invalid input: '{invalid}'");
        assert_eq!(err.unwrap_err(), MetricsRange::INVALID_RANGE_MESSAGE);
    }
}

#[test]
fn range_text_parses_back_to_the_same_range() {
    let all = [
        MetricsRange::FiveMinutes,
        MetricsRange::FifteenMinutes,
        MetricsRange::ThirtyMinutes,
        MetricsRange::OneHour,
        MetricsRange::SixHours,
        MetricsRange::TwelveHours,
        MetricsRange::TwentyFourHours,
        MetricsRange::SevenDays,
    ];
    for range in all {
        assert_eq!(MetricsRange::parse(range.as_str()), Ok(range));
        assert_eq!(range.to_string(), range.as_str());
    }
}

#[test]
fn range_lengths_in_seconds() {
    assert_eq!(MetricsRange::FiveMinutes.duration_secs(), 300);
    assert_eq!(MetricsRange::FifteenMinutes.duration_secs(), 900);
    assert_eq!(MetricsRange::ThirtyMinutes.duration_secs(), 1800);
    assert_eq!(MetricsRange::OneHour.duration_secs(), 3600);
    assert_eq!(MetricsRange::SixHours.duration_secs(), 21600);
    assert_eq!(MetricsRange::TwelveHours.duration_secs(), 43200);
    assert_eq!(MetricsRange::TwentyFourHours.duration_secs(), 86400);
    assert_eq!(MetricsRange::SevenDays.duration_secs(), 604800);
    assert_eq!(MetricsRange::SevenDays.duration().num_seconds(), 604800);
}

#[test]
fn parse_error_is_the_supported_ranges_message() {
    assert_eq!(
        "1d".parse::<MetricsRange>(),
        Err("Supported ranges are 5m, 15m, 30m, 1h, 6h, 12h, 24h, and 7d")
    );
}

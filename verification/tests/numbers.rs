use cloudmesh::numbers::{parse_i64, parse_u64};

const INPUTS: [&str; 24] = [
    "", "0", "5", "+5", "-5", "+", "-", "++5", "+-5", "007", " 5", "5 ", "5s", "1_000", "12345",
    "18446744073709551615", "18446744073709551616", "9223372036854775807",
    "9223372036854775808", "-9223372036854775808", "-9223372036854775809",
    "99999999999999999999999", "-0", "٣",
];

#[test]
fn unsigned_parsing_matches_std() {
    for s in INPUTS {
        assert_eq!(parse_u64(s), s.parse::<u64>().ok(), "input {s:?}");
    }
}

#[test]
fn signed_parsing_matches_std() {
    for s in INPUTS {
        assert_eq!(parse_i64(s), s.parse::<i64>().ok(), "input {s:?}");
    }
}

#[test]
fn parsed_values() {
    assert_eq!(parse_u64("30"), Some(30));
    assert_eq!(parse_i64("-30"), Some(-30));
    assert_eq!(parse_i64("-9223372036854775808"), Some(i64::MIN));
    assert_eq!(parse_u64("-1"), None);
}

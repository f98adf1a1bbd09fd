use conclave::duration::{compute_effective, format_duration, parse_duration};

#[test]
fn test_parse_special_values() {
    assert_eq!(parse_duration("-1").unwrap(), -1);
    assert_eq!(parse_duration("0").unwrap(), 0);
}

#[test]
fn test_parse_seconds() {
    assert_eq!(parse_duration("15s").unwrap(), 15);
    assert_eq!(parse_duration("1s").unwrap(), 1);
    assert_eq!(parse_duration("100s").unwrap(), 100);
}

#[test]
fn test_parse_hours() {
    assert_eq!(parse_duration("1h").unwrap(), 3600);
    assert_eq!(parse_duration("2h").unwrap(), 7200);
    assert_eq!(parse_duration("24h").unwrap(), 86400);
}

#[test]
fn test_parse_days() {
    assert_eq!(parse_duration("1d").unwrap(), 86400);
    assert_eq!(parse_duration("7d").unwrap(), 604800);
    assert_eq!(parse_duration("30d").unwrap(), 2592000);
}

#[test]
fn test_parse_weeks() {
    assert_eq!(parse_duration("1w").unwrap(), 604800);
    assert_eq!(parse_duration("4w").unwrap(), 2419200);
}

#[test]
fn test_parse_months() {
    assert_eq!(parse_duration("1m").unwrap(), 2592000);
    assert_eq!(parse_duration("6m").unwrap(), 15552000);
}

#[test]
fn test_parse_years() {
    assert_eq!(parse_duration("1y").unwrap(), 31536000);
    assert_eq!(parse_duration("2y").unwrap(), 63072000);
}

#[test]
fn test_parse_whitespace() {
    assert_eq!(parse_duration("  7d  ").unwrap(), 604800);
}

#[test]
fn test_parse_invalid() {
    assert!(parse_duration("").is_err());
    assert!(parse_duration("abc").is_err());
    assert!(parse_duration("10x").is_err());
    assert!(parse_duration("d").is_err());
    assert!(parse_duration("-2d").is_err());
    assert!(parse_duration("0d").is_err());
}

#[test]
fn test_parse_overflow() {
    assert!(parse_duration("999999999999y").is_err());
}

#[test]
fn test_format_special_values() {
    assert_eq!(format_duration(-1), "disabled");
    assert_eq!(format_duration(0), "fetch-then-delete");
}

#[test]
fn test_format_exact_units() {
    assert_eq!(format_duration(1), "1s");
    assert_eq!(format_duration(15), "15s");
    assert_eq!(format_duration(3600), "1h");
    assert_eq!(format_duration(7200), "2h");
    assert_eq!(format_duration(86400), "1d");
    assert_eq!(format_duration(604800), "1w");
    assert_eq!(format_duration(2592000), "1m");
    assert_eq!(format_duration(31536000), "1y");
}

#[test]
fn test_format_non_exact_falls_to_smaller_unit() {
    assert_eq!(format_duration(90), "90s");
    assert_eq!(format_duration(5400), "5400s");
}

#[test]
fn test_format_roundtrip() {
    // Only positive durations roundtrip; special values (-1, 0) format to
    // human-readable strings ("disabled", "fetch-then-delete") that are not
    // valid parse inputs.
    for input in &["15s", "2h", "7d", "4w", "1m", "1y"] {
        let seconds = parse_duration(input).unwrap();
        let formatted = format_duration(seconds);
        let re_parsed = parse_duration(&formatted).unwrap();
        assert_eq!(
            seconds, re_parsed,
            "roundtrip failed for {input}: {seconds} -> {formatted} -> {re_parsed}"
        );
    }
}

#[test]
fn test_compute_effective() {
    assert_eq!(compute_effective(-1, -1), -1);
    assert_eq!(compute_effective(-1, 3600), 3600);
    assert_eq!(compute_effective(86400, -1), 86400);
    assert_eq!(compute_effective(86400, 3600), 3600);
    assert_eq!(compute_effective(3600, 86400), 3600);
    assert_eq!(compute_effective(0, 3600), 0);
    assert_eq!(compute_effective(3600, 0), 0);
    assert_eq!(compute_effective(0, 0), 0);
    assert_eq!(compute_effective(0, -1), 0);
    assert_eq!(compute_effective(-1, 0), 0);
}

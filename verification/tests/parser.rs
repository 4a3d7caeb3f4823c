use countdown_tui::time_parser::parse_duration_or_time;
use countdown_tui::time_parser::parse_duration_string;
use countdown_tui::time_parser::seconds_until;
use countdown_tui::time_parser::ParseError;

fn duration_message(input: &str) -> String {
    match parse_duration_string(input) {
        Err(ParseError::InvalidDuration(m)) => m,
        other => panic!("expected InvalidDuration for {:?}, got {:?}", input, other),
    }
}

#[test]
fn valid_durations_sum_their_tokens() {
    assert_eq!(parse_duration_or_time("5s").unwrap(), 5);
    assert_eq!(parse_duration_or_time("30s").unwrap(), 30);
    assert_eq!(parse_duration_or_time("2m").unwrap(), 120);
    assert_eq!(parse_duration_or_time("1h").unwrap(), 3600);
    assert_eq!(parse_duration_or_time("1m30s").unwrap(), 90);
    assert_eq!(parse_duration_or_time("1h2m3s").unwrap(), 3723);
}

#[test]
fn duration_units_are_case_insensitive() {
    assert_eq!(parse_duration_or_time("1H2M3S").unwrap(), 3723);
}

#[test]
fn repeated_units_accumulate() {
    assert_eq!(parse_duration_or_time("1h2h").unwrap(), 3 * 3600);
    assert_eq!(parse_duration_or_time("10s20s").unwrap(), 30);
}

#[test]
fn spaces_between_tokens_and_at_the_edges_are_tolerated() {
    assert_eq!(parse_duration_or_time("  25s  ").unwrap(), 25);
    assert_eq!(parse_duration_or_time("1h 2m 3s").unwrap(), 3723);
}

#[test]
fn a_space_inside_a_token_is_rejected() {
    assert_eq!(duration_message("1 h"), "Number without unit");
    assert_eq!(duration_message("1 2s"), "Number without unit");
    assert_eq!(duration_message("5 s"), "Number without unit");
    assert_eq!(duration_message("1h 2 m"), "Number without unit");
}

#[test]
fn malformed_inputs_fail() {
    assert!(parse_duration_or_time("5").is_err());
    assert!(parse_duration_or_time("s").is_err());
    assert!(parse_duration_or_time("").is_err());
    assert!(parse_duration_or_time("invalid").is_err());
}

#[test]
fn zero_total_is_rejected() {
    assert!(parse_duration_or_time("0s").is_err());
    assert!(parse_duration_or_time("0h0m0s").is_err());
    assert_eq!(duration_message("0s"), "Zero duration");
}

#[test]
fn duration_error_reasons_are_specific() {
    assert_eq!(duration_message(""), "Empty string");
    assert_eq!(duration_message("   "), "Empty string");
    assert_eq!(duration_message("5"), "Number without unit");
    assert_eq!(duration_message("1h5"), "Number without unit");
    assert_eq!(duration_message("h"), "Missing number before 'h'");
    assert_eq!(duration_message("5s m"), "Missing number before 'm'");
    assert_eq!(duration_message("S"), "Missing number before 's'");
    assert_eq!(duration_message("5x"), "Invalid character");
    assert_eq!(duration_message("99999999999999999999s"), "Invalid number");
    assert_eq!(duration_message("9000000000000000000h"), "Duration too large");
}

#[test]
fn unmatched_input_reports_invalid_format_with_original_text() {
    match parse_duration_or_time("invalid") {
        Err(ParseError::InvalidFormat(s)) => assert_eq!(s, "invalid"),
        other => panic!("expected InvalidFormat, got {:?}", other),
    }
}

#[test]
fn error_messages_read_like_sentences() {
    let e = ParseError::InvalidFormat("oops".to_string());
    assert_eq!(e.message(), "Invalid format: oops");
    let e = ParseError::InvalidDuration("Zero duration".to_string());
    assert_eq!(e.message(), "Invalid duration: Zero duration");
}

#[test]
fn clock_times_resolve_to_a_future_offset() {
    let d = parse_duration_or_time("14:15").unwrap();
    assert!(1 <= d && d <= 86400);
    let d = parse_duration_or_time("1415").unwrap();
    assert!(1 <= d && d <= 86400);
    let d = parse_duration_or_time("02:30PM").unwrap();
    assert!(1 <= d && d <= 86400);
    let d = parse_duration_or_time("2:30 pm").unwrap();
    assert!(1 <= d && d <= 86400);
    let d = parse_duration_or_time("10:00AM").unwrap();
    assert!(1 <= d && d <= 86400);
}

#[test]
fn impossible_clock_times_fail() {
    assert!(parse_duration_or_time("25:99").is_err());
    assert!(parse_duration_or_time("13:07 AM").is_err());
    assert!(parse_duration_or_time("10:00XY").is_err());
}

#[test]
fn seconds_until_counts_forward_and_wraps_to_tomorrow() {
    // Current time 14:00, target 14:15: a quarter of an hour ahead.
    assert_eq!(seconds_until(14 * 3600 + 15 * 60, 14 * 3600), 900);
    // Current time 14:00, target 13:00: already passed, so 23 hours ahead.
    assert_eq!(seconds_until(13 * 3600, 14 * 3600), 23 * 3600);
    // A target equal to the current time wraps a full day.
    assert_eq!(seconds_until(0, 0), 86400);
}

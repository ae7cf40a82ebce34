use minimum_hw_project::text::{
    hold_note, level_tag, log_level_from_keyword, state_badge, state_name, switch_name,
    timestamp_parts,
};
use minimum_hw_project::{format_timestamp, parse_log_level, switch_label, LogLevel, SwitchId, SwitchState};

#[test]
fn test_format_timestamp_non_empty() {
    let ts = 1771488000000; // valid millis
    let formatted = format_timestamp(ts);
    assert!(!formatted.is_empty());
    assert!(formatted.contains("2026") || formatted.contains("ms"));
}

#[test]
fn format_timestamp_shows_date_time_and_millis() {
    let formatted = format_timestamp(1771488000123);
    assert_eq!(formatted.len(), "2026-02-19 08:00:00.123".len());
    assert!(formatted.ends_with(".123"));
}

#[test]
fn format_timestamp_renders_times_before_the_epoch() {
    let formatted = format_timestamp(-1500);
    assert_eq!(formatted.len(), 23);
    assert!(formatted.ends_with(".500"));
    assert!(formatted.starts_with("1969-12-31") || formatted.starts_with("1970-01-01"));
    assert!(format_timestamp(-1).ends_with(".999"));
}

#[test]
fn format_timestamp_year_of_a_known_instant() {
    assert!(format_timestamp(1771488000000).starts_with("2026-02-"));
}

#[test]
fn format_timestamp_falls_back_to_millis() {
    assert_eq!(format_timestamp(i64::MAX), "9223372036854775807ms");
    assert_eq!(format_timestamp(i64::MIN), "-9223372036854775808ms");
}

#[test]
fn switch_label_names_switch_and_line() {
    assert_eq!(switch_label(1, 23), "SW1 (GPIO 23)");
    assert_eq!(switch_label(2, 24), "SW2 (GPIO 24)");
    assert_eq!(switch_label(0, 0), "SW0 (GPIO 0)");
    assert_eq!(switch_label(255, 100), "SW255 (GPIO 100)");
}

#[test]
fn log_levels_parse_in_any_case() {
    assert_eq!(parse_log_level("debug"), LogLevel::Debug);
    assert_eq!(parse_log_level("INFO"), LogLevel::Info);
    assert_eq!(parse_log_level("Warn"), LogLevel::Warn);
    assert_eq!(parse_log_level("WARNING"), LogLevel::Warn);
    assert_eq!(parse_log_level("error"), LogLevel::Error);
    assert_eq!(parse_log_level("verbose"), LogLevel::Debug);
    assert_eq!(parse_log_level(""), LogLevel::Debug);
    assert_eq!(log_level_from_keyword("ERROR"), LogLevel::Debug);
    assert_eq!(log_level_from_keyword("error"), LogLevel::Error);
}

#[test]
fn labels_match_the_printed_text() {
    assert_eq!(level_tag(LogLevel::Debug), "[DEBUG]");
    assert_eq!(level_tag(LogLevel::Info), "[INFO ]");
    assert_eq!(level_tag(LogLevel::Warn), "[WARN ]");
    assert_eq!(level_tag(LogLevel::Error), "[ERROR]");
    assert_eq!(state_name(SwitchState::Pressed), "PRESSED");
    assert_eq!(state_name(SwitchState::Released), "RELEASED");
    assert_eq!(state_name(SwitchState::Unspecified), "UNSPECIFIED");
    assert_eq!(switch_name(SwitchId::Switch1), "SW1 (GPIO 23)");
    assert_eq!(switch_name(SwitchId::Switch2), "SW2 (GPIO 24)");
    assert_eq!(switch_name(SwitchId::Unspecified), "UNKNOWN SW");
    assert_eq!(state_badge(SwitchState::Pressed), " \u{25bc} PRESSED ");
    assert_eq!(state_badge(SwitchState::Released), " \u{25b2} RELEASED");
    assert_eq!(state_badge(SwitchState::Unspecified), " ? UNKNOWN ");
}

#[test]
fn hold_notes_only_for_measured_holds() {
    assert_eq!(hold_note(150, "ms"), " (held for 150ms)");
    assert_eq!(hold_note(320, " ms"), " (held for 320 ms)");
    assert_eq!(hold_note(0, "ms"), "");
}

#[test]
fn timestamp_parts_round_down() {
    assert_eq!(timestamp_parts(1771488000123), (1771488000, 123_000_000));
    assert_eq!(timestamp_parts(-1500), (-2, 500_000_000));
    assert_eq!(timestamp_parts(-2000), (-2, 0));
    assert_eq!(timestamp_parts(0), (0, 0));
    assert_eq!(timestamp_parts(i64::MIN), (-9223372036854776, 192_000_000));
}

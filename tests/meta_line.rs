use forum_watch::meta::{normalize_whitespace, parse_meta};
use forum_watch::timestamp::Timestamp;

fn jan_5_2024_15_45() -> Timestamp {
    Timestamp { year: 2024, month: 1, day: 5, hour: 15, minute: 45, second: 0 }
}

#[test]
fn collapses_blank_runs() {
    assert_eq!(normalize_whitespace("  by \t Alice\n\n:  Jan 5  "), "by Alice : Jan 5");
}

#[test]
fn blank_only_text_becomes_empty() {
    assert_eq!(normalize_whitespace(" \n\t "), "");
    assert_eq!(normalize_whitespace(""), "");
}

#[test]
fn parses_author_and_date() {
    let (author, date) = parse_meta("by Alice : Jan 5, 2024 at 3:45 PM").unwrap();
    assert_eq!(author, "Alice");
    assert_eq!(date, jan_5_2024_15_45());
}

#[test]
fn parses_line_spread_over_blanks() {
    let (author, date) = parse_meta("\n\t  by   Alice:\n\tJan 5, 2024 at 3:45 PM \n").unwrap();
    assert_eq!(author, "Alice");
    assert_eq!(date, jan_5_2024_15_45());
}

#[test]
fn morning_hours_stay_before_noon() {
    let (author, date) = parse_meta("by bob_7: Dec 31, 2023 at 12:05 AM").unwrap();
    assert_eq!(author, "bob_7");
    assert_eq!(date, Timestamp { year: 2023, month: 12, day: 31, hour: 0, minute: 5, second: 0 });
}

#[test]
fn line_without_author_marker_is_absent() {
    assert!(parse_meta("Alice : Jan 5, 2024 at 3:45 PM").is_none());
    assert!(parse_meta("").is_none());
}

#[test]
fn date_in_another_format_is_absent() {
    assert!(parse_meta("by Alice : 2024-01-05 15:45").is_none());
    assert!(parse_meta("by Alice : yesterday").is_none());
    assert!(parse_meta("by Alice : Feb 30, 2024 at 3:45 PM").is_none());
}

use robo::ui::human_duration_text;
use std::time::Duration;

/// The whole text of an elapsed time: the library's text, or one decimal of
/// seconds, which floating-point formatting gives.
fn human_duration(duration: Duration) -> String {
    match human_duration_text(duration.as_secs(), duration.subsec_nanos()) {
        Some(text) => text,
        None => format!("{:.1}s", duration.as_secs_f64()),
    }
}

#[test]
fn formats_short_human_durations_as_milliseconds() {
    assert_eq!(human_duration(Duration::from_millis(42)), "42ms");
    assert_eq!(human_duration_text(0, 42_000_000), Some("42ms".to_string()));
}

#[test]
fn formats_second_human_durations_with_one_decimal() {
    assert_eq!(human_duration(Duration::from_millis(1250)), "1.2s");
    assert_eq!(human_duration_text(1, 250_000_000), None);
}

#[test]
fn formats_long_human_durations_as_minutes_and_seconds() {
    assert_eq!(human_duration(Duration::from_secs(125)), "2m 5s");
    assert_eq!(human_duration_text(125, 0), Some("2m 5s".to_string()));
    assert_eq!(human_duration_text(60, 999_999_999), Some("1m 0s".to_string()));
    assert_eq!(human_duration_text(0, 999_999_999), Some("999ms".to_string()));
}

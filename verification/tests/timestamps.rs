//! Timestamp rendering in each representation, against the real calendar
//! library.

use call_logger::{CallLogger, TimestampFormat};

fn micros_of(rfc3339: &str) -> u64 {
    chrono::DateTime::parse_from_rfc3339(rfc3339)
        .unwrap()
        .timestamp_micros() as u64
}

#[test]
fn test_epoch_ms_timestamp() {
    let logger = CallLogger::default().with_epoch_ms_timestamp();
    assert_eq!(logger.timestamp, Some(TimestampFormat::UtcEpochMs));
    let test_time = micros_of("2025-01-03T10:30:00+00:00");
    assert_eq!(logger.format_timestamp(test_time), "1735900200000");
}

#[test]
fn test_epoch_us_timestamp() {
    let logger = CallLogger::default().with_epoch_us_timestamp();
    assert_eq!(logger.timestamp, Some(TimestampFormat::UtcEpochUs));
    let test_time = micros_of("2025-01-03T10:30:00+00:00");
    assert_eq!(logger.format_timestamp(test_time), "1735900200000000");
}

#[test]
fn test_utc_timestamp() {
    let logger = CallLogger::default().with_utc_timestamp();
    assert_eq!(logger.timestamp, Some(TimestampFormat::Utc));
    let test_time = micros_of("2025-01-03T10:30:00+00:00");
    assert_eq!(logger.format_timestamp(test_time), "2025-01-03T10:30:00+00:00");
}

#[test]
fn test_formatted_timestamp() {
    let logger = CallLogger::default()
        .with_formatted_timestamp(TimestampFormat::Utc, "%H:%M:%S %d/%m/%Y %z");
    assert_eq!(logger.timestamp, Some(TimestampFormat::Utc));
    let test_time = micros_of("2025-01-03T10:30:00+00:00");
    assert_eq!(logger.format_timestamp(test_time), "10:30:00 03/01/2025 +0000");
}

#[test]
fn local_timestamp_renders_same_instant() {
    // The local rendering depends on the machine's timezone; what must hold
    // everywhere is that the rendered instant is the given one.
    let logger = CallLogger::default().with_local_timestamp();
    let test_time = micros_of("2025-01-03T10:30:00+00:00");
    let rendered = logger.format_timestamp(test_time);
    let parsed = chrono::DateTime::parse_from_rfc3339(&rendered).unwrap();
    assert_eq!(parsed.timestamp_micros() as u64, test_time);
}

#[test]
fn inactive_timestamps_render_nothing() {
    let logger = CallLogger::default();
    assert_eq!(logger.timestamp, None);
    assert_eq!(logger.format_timestamp(1), "");
}

//! Configuration building: defaults, chained setters, and the per-target
//! level overrides.

use call_logger::{CallLogger, Level, LevelFilter, Metadata, TimestampFormat};

#[test]
fn test_log_default() {
    let logger = CallLogger::default();
    assert_eq!(logger.level, LevelFilter::Trace);
    assert_eq!(logger.call_target, "echo");
}

#[test]
fn test_log_debug() {
    let logger = CallLogger::default()
        .with_level(LevelFilter::Error)
        .with_level_for("test", LevelFilter::Warn)
        .to_file("test.log")
        .echo();
    let test = logger.describe();
    assert!(test.contains("CallLogger"));
    assert!(test.contains("call-target: \"echo\","));
    assert!(test.contains("echo: true,"));
    assert!(test.contains("level: Error, "));
    assert!(test.contains("levels: {\"test\": Warn}, "));
    assert!(test.contains("file: Some(\"test.log\"),"));
}

#[test]
fn test_level() {
    let logger = CallLogger::default().with_level(LevelFilter::Info);
    assert_eq!(logger.level, LevelFilter::Info);
}

#[test]
fn test_with_level_for_match() {
    let logger = CallLogger::default()
        .with_level(LevelFilter::Info)
        .with_level_for("test", LevelFilter::Warn);
    assert_eq!(logger.level, LevelFilter::Info);
    let trace_metadata = Metadata::new(Level::Trace, "call_logger::test::module".to_string());
    let debug_metadata = Metadata::new(Level::Debug, "call_logger::test::module".to_string());
    let info_metadata = Metadata::new(Level::Info, "call_logger::test::module".to_string());
    let warn_metadata = Metadata::new(Level::Warn, "call_logger::test::module".to_string());
    let error_metadata = Metadata::new(Level::Error, "call_logger::test::module".to_string());
    assert!(!logger.enabled(&trace_metadata));
    assert!(!logger.enabled(&debug_metadata));
    assert!(!logger.enabled(&info_metadata));
    assert!(logger.enabled(&warn_metadata));
    assert!(logger.enabled(&error_metadata));
}

#[test]
fn test_with_level_for_no_match() {
    let logger = CallLogger::default()
        .with_level(LevelFilter::Info)
        .with_level_for("test", LevelFilter::Warn);
    assert_eq!(logger.level, LevelFilter::Info);
    let trace_metadata = Metadata::new(Level::Trace, "call_logger::module".to_string());
    let debug_metadata = Metadata::new(Level::Debug, "call_logger::module".to_string());
    let info_metadata = Metadata::new(Level::Info, "call_logger::module".to_string());
    let warn_metadata = Metadata::new(Level::Warn, "call_logger::module".to_string());
    let error_metadata = Metadata::new(Level::Error, "call_logger::module".to_string());
    assert!(!logger.enabled(&trace_metadata));
    assert!(!logger.enabled(&debug_metadata));
    assert!(logger.enabled(&info_metadata));
    assert!(logger.enabled(&warn_metadata));
    assert!(logger.enabled(&error_metadata));
}

#[test]
fn test_call_target() {
    let logger = CallLogger::default().with_call_target("wc");
    assert_eq!(logger.call_target, "wc".to_string());
}

#[test]
fn test_local_timestamp() {
    let logger = CallLogger::default().with_local_timestamp();
    assert_eq!(logger.timestamp, Some(TimestampFormat::Local));
}

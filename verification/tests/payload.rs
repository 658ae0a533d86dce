//! The default JSON payload: member order, omission of absent fields,
//! key-value pairs, and message escaping.

use call_logger::format::json_formatter;
use call_logger::{Level, Record};

fn full_record() -> Record {
    Record {
        level: Level::Error,
        target: "m".to_string(),
        message: "He said \"hi\"\\back".to_string(),
        file: Some("a.rs".to_string()),
        line: Some(10),
        module: Some("m".to_string()),
        key_values: vec![],
    }
}

#[test]
fn formatter_round_trip() {
    // Quotes and backslashes in the message are escaped; nothing else is
    // altered.
    let payload = json_formatter(None, &full_record());
    assert!(payload.contains("\"level\":\"ERROR\""));
    assert!(payload.contains("\"file\":\"a.rs\""));
    assert!(payload.contains("\"line\":\"10\""));
    assert!(payload.contains("\"module_path\":\"m\""));
    assert!(payload.contains("\"msg\":\"He said \\\"hi\\\"\\\\back\""));
}

#[test]
fn member_order_is_fixed() {
    let payload = json_formatter(Some("123"), &full_record());
    assert_eq!(
        payload,
        "{\"ts\":\"123\",\"level\":\"ERROR\",\"file\":\"a.rs\",\"line\":\"10\",\
         \"module_path\":\"m\",\"msg\":\"He said \\\"hi\\\"\\\\back\"}"
    );
}

#[test]
fn absent_fields_are_omitted() {
    let record = Record {
        level: Level::Info,
        target: String::new(),
        message: "m".to_string(),
        file: None,
        line: None,
        module: None,
        key_values: vec![],
    };
    let payload = json_formatter(None, &record);
    assert_eq!(payload, "{\"level\":\"INFO\",\"msg\":\"m\"}");
}

#[test]
fn kv_pairs_are_rendered() {
    let record = Record {
        level: Level::Info,
        target: "call_logger::test".to_string(),
        message: "test message".to_string(),
        file: Some("src/lib.rs".to_string()),
        line: Some(100),
        module: Some("call_logger::test".to_string()),
        key_values: vec![("test_item".to_string(), "test_value".to_string())],
    };
    let payload = json_formatter(None, &record);
    assert!(payload.contains("\"test_item\":\"test_value\""));
    assert!(payload.contains("\"level\":\"INFO\""));
    assert!(payload.contains("\"file\":\"src/lib.rs\""));
    assert!(payload.contains("\"module_path\":\"call_logger::test\""));
    assert!(payload.contains("\"msg\":\"test message\""));
}

#[test]
fn empty_message_renders_empty_member() {
    let record = Record {
        level: Level::Warn,
        target: String::new(),
        message: String::new(),
        file: None,
        line: None,
        module: None,
        key_values: vec![],
    };
    let payload = json_formatter(None, &record);
    assert_eq!(payload, "{\"level\":\"WARN\",\"msg\":\"\"}");
}

//! The dispatch decision: exact filtering, argument templating, and the
//! exclusive routing between the process path and the HTTP path.

use call_logger::{Action, CallLogger, Level, LevelFilter, Record};

fn record(level: Level, target: &str, message: &str) -> Record {
    Record {
        level,
        target: target.to_string(),
        message: message.to_string(),
        file: None,
        line: None,
        module: None,
        key_values: vec![],
    }
}

#[test]
fn test_log_quoted_string() {
    let logger = CallLogger::default();
    assert_eq!(logger.level, LevelFilter::Trace);
    assert_eq!(logger.call_target, "echo".to_string());
    let msg = "{ \"message\": \"test message\" }";
    let plan = logger.plan(&record(Level::Info, "", msg), None);
    match plan.action {
        Action::Spawn { argv, capture_file } => {
            assert_eq!(argv[0], "echo");
            assert_eq!(argv.len(), 2);
            assert!(capture_file.is_none());
        }
        _ => panic!("a non-URL call target must spawn"),
    }
}

#[test]
fn test_log_level_filter() {
    let logger = CallLogger::new().with_level(LevelFilter::Error);
    assert_eq!(logger.level, LevelFilter::Error);
    assert_eq!(logger.call_target, "echo".to_string());
    let plan = logger.plan(&record(Level::Info, "", "filtered message"), None);
    assert!(matches!(plan.action, Action::Skip));
    assert!(plan.echo_line.is_none());
}

#[test]
fn filtered_record_dispatches_nothing() {
    // A record above the effective threshold for its target triggers no
    // spawn, no post, and no echo line.
    let logger = CallLogger::new()
        .with_level(LevelFilter::Info)
        .with_level_for("quiet", LevelFilter::Error)
        .echo();
    let plan = logger.plan(&record(Level::Warn, "app::quiet::worker", "dropped"), None);
    assert!(matches!(plan.action, Action::Skip));
    assert!(plan.echo_line.is_none());
}

#[test]
fn override_resolution() {
    let logger = CallLogger::new()
        .with_level(LevelFilter::Info)
        .with_level_for("mod_a", LevelFilter::Warn);
    assert!(logger.enabled(&record(Level::Warn, "x::mod_a::y", "m").metadata()));
    assert!(!logger.enabled(&record(Level::Info, "x::mod_a::y", "m").metadata()));
    assert!(logger.enabled(&record(Level::Info, "x::mod_b", "m").metadata()));
}

#[test]
fn first_matching_override_wins() {
    let logger = CallLogger::new()
        .with_level(LevelFilter::Info)
        .with_level_for("mod_a", LevelFilter::Warn)
        .with_level_for("mod_a", LevelFilter::Trace);
    // The first registered entry decides, so Debug stays filtered.
    assert!(!logger.enabled(&record(Level::Debug, "x::mod_a::y", "m").metadata()));
    assert!(logger.enabled(&record(Level::Warn, "x::mod_a::y", "m").metadata()));
}

#[test]
fn placeholder_substitution() {
    let argv = call_logger::dispatch::build_argv("curl -d {} http://x", "P");
    assert_eq!(argv, vec!["curl", "-d", "P", "http://x"]);
    let argv = call_logger::dispatch::build_argv("echo", "P");
    assert_eq!(argv, vec!["echo", "P"]);
}

#[test]
fn tokenizing_keeps_empty_tokens() {
    let argv = call_logger::dispatch::build_argv("a  b", "P");
    assert_eq!(argv, vec!["a", "", "b", "P"]);
    let argv = call_logger::dispatch::build_argv("", "P");
    assert_eq!(argv, vec!["", "P"]);
    let argv = call_logger::dispatch::build_argv("{}", "P");
    assert_eq!(argv, vec!["P"]);
    let argv = call_logger::dispatch::build_argv("a {} b {}", "P");
    assert_eq!(argv, vec!["a", "P", "b", "{}"]);
}

#[test]
fn url_target_posts_and_never_spawns() {
    let logger = CallLogger::new().with_call_target("https://example.test/hook");
    let plan = logger.plan(&record(Level::Error, "app", "boom"), None);
    match plan.action {
        Action::Post { url, body } => {
            assert_eq!(url, "https://example.test/hook");
            assert!(body.contains("\"msg\":\"boom\""));
        }
        _ => panic!("an HTTP(S) call target must post"),
    }
}

#[test]
fn plain_target_spawns_and_never_posts() {
    let logger = CallLogger::new().with_call_target("wc -l");
    let plan = logger.plan(&record(Level::Error, "app", "boom"), None);
    match plan.action {
        Action::Spawn { argv, capture_file } => {
            assert_eq!(argv[0], "wc");
            assert_eq!(argv[1], "-l");
            assert_eq!(argv.len(), 3);
            assert!(capture_file.is_none());
        }
        _ => panic!("a non-URL call target must spawn"),
    }
}

#[test]
fn http_client_internals_are_guarded() {
    // A record from the HTTP client's own internals must not be posted,
    // lest the client's logging re-enter the sink without end.
    let logger = CallLogger::new().with_call_target("http://example.test/hook");
    let mut rec = record(Level::Error, "ureq::unit", "inner");
    rec.module = Some("ureq::unit".to_string());
    let plan = logger.plan(&rec, None);
    assert!(matches!(plan.action, Action::Skip));
}

#[test]
fn end_to_end_spawn_plan() {
    // Threshold Error, a script target, one Error record: the decision is a
    // spawn of the script with the payload as the final argument, and the
    // payload carries the message.
    let logger = CallLogger::new()
        .with_level(LevelFilter::Error)
        .with_call_target("script.sh OUTFILE");
    let plan = logger.plan(&record(Level::Error, "app", "boom"), None);
    match plan.action {
        Action::Spawn { argv, capture_file } => {
            assert_eq!(argv[0], "script.sh");
            assert_eq!(argv[1], "OUTFILE");
            assert_eq!(argv.len(), 3);
            assert!(argv[2].contains("\"msg\":\"boom\""));
            assert!(capture_file.is_none());
        }
        _ => panic!("a non-URL call target must spawn"),
    }
}

#[test]
fn capture_file_rides_along() {
    let logger = CallLogger::new().with_call_target("echo").to_file("out.log");
    let plan = logger.plan(&record(Level::Error, "app", "m"), None);
    match plan.action {
        Action::Spawn { capture_file, .. } => {
            assert_eq!(capture_file.as_deref(), Some("out.log"));
        }
        _ => panic!("a non-URL call target must spawn"),
    }
}

#[test]
fn echo_lines_describe_the_invocation() {
    let logger = CallLogger::new().with_call_target("wc -l").echo();
    let plan = logger.plan(&record(Level::Error, "app", "m"), None);
    let line = plan.echo_line.expect("echo mode must produce a line");
    assert!(line.starts_with("Calling: `wc -l "));
    assert!(line.ends_with("`"));

    let logger = CallLogger::new().with_call_target("https://example.test/h").echo();
    let plan = logger.plan(&record(Level::Error, "app", "m"), None);
    let line = plan.echo_line.expect("echo mode must produce a line");
    assert!(line.starts_with("Calling: `https://example.test/h\n\t"));
}

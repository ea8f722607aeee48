//! The log destination resolution and the sink's filtering behaviour.

use urocyon::args::{Args, LogLevel};
use urocyon::logs::{LogError, LogManager, LogRecord, LogSink};

fn args_with_log_path(log_path: &str) -> Args {
    Args::new(
        "127.0.0.1".to_string(),
        8080,
        "data/app.sqlite3".to_string(),
        log_path.to_string(),
        "migrations".to_string(),
        LogLevel::Debug,
    )
}

#[test]
fn register_splits_directory_and_file_prefix() {
    let m = LogManager::register(&args_with_log_path("logs/app.ndjson")).unwrap();
    assert_eq!(m.directory, "logs");
    assert_eq!(m.file_prefix, "app.ndjson");
    assert_eq!(m.sink.floor, LogLevel::Debug);
    assert_eq!(m.sink.records.len(), 0);
}

#[test]
fn register_accepts_bare_file_name() {
    let m = LogManager::register(&args_with_log_path("app.ndjson")).unwrap();
    assert_eq!(m.directory, "");
    assert_eq!(m.file_prefix, "app.ndjson");
}

#[test]
fn register_rejects_empty_log_path() {
    let e = LogManager::register(&args_with_log_path("")).unwrap_err();
    assert!(matches!(e, LogError::NoParent { .. }));
    assert_eq!(e.message(), "Logs path `` has no parent.");
}

#[test]
fn register_rejects_path_without_file_name() {
    let e = LogManager::register(&args_with_log_path("logs/")).unwrap_err();
    assert!(matches!(e, LogError::NoFileName { .. }));
    assert_eq!(
        e.message(),
        "Log path `logs/` does not end in a base file name."
    );
}

#[test]
fn emit_appends_exactly_when_level_passes_floor() {
    let mut sink = LogSink::new(LogLevel::Info);
    let low = LogRecord {
        level: LogLevel::Debug,
        msg: "low".to_string(),
        id: "i".to_string(),
        uri: "/".to_string(),
        method: "GET".to_string(),
        status: None,
        duration_ms: None,
    };
    let high = LogRecord {
        level: LogLevel::Info,
        msg: "high".to_string(),
        id: "i".to_string(),
        uri: "/".to_string(),
        method: "GET".to_string(),
        status: None,
        duration_ms: None,
    };
    sink.emit(low);
    sink.emit(high);
    assert_eq!(sink.records.len(), 1);
    assert_eq!(sink.records[0].msg, "high");
    assert_eq!(sink.floor, LogLevel::Info);
}

#[test]
fn level_names_and_ranks_follow_severity_order() {
    assert_eq!(LogLevel::Trace.name(), "TRACE");
    assert_eq!(LogLevel::Error.name(), "ERROR");
    assert!(LogLevel::Trace.rank() < LogLevel::Debug.rank());
    assert!(LogLevel::Debug.rank() < LogLevel::Info.rank());
    assert!(LogLevel::Info.rank() < LogLevel::Warn.rank());
    assert!(LogLevel::Warn.rank() < LogLevel::Error.rank());
}

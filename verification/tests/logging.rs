use cef::logging::{CefLogMessage, Level, LevelFilter, Logger, LoggerBuilder, Record, LOGSEVERITY_DISABLE};

fn record(level: Level, module: Option<&str>, file: Option<&str>, line: Option<u32>, message: &str) -> Record {
    Record {
        level,
        module: module.map(String::from),
        file: file.map(String::from),
        line,
        message: message.to_string(),
    }
}

fn doc_logger() -> Logger {
    Logger::builder()
        .level(LevelFilter::Warn)
        .level_for_module_path("mycrate", LevelFilter::Debug)
        .build()
}

#[test]
fn module_filter_first_match_wins() {
    let logger = Logger::builder()
        .level(LevelFilter::Warn)
        .level_for_module_path("mycrate", LevelFilter::Debug)
        .level_for_module_path("mycrate::quiet", LevelFilter::Off)
        .build();
    assert_eq!(logger.module_level("mycrate::quiet::inner"), LevelFilter::Debug);
    assert_eq!(logger.module_level("mycrate"), LevelFilter::Debug);
    assert_eq!(logger.module_level("other"), LevelFilter::Warn);
    assert_eq!(logger.module_level("mycr"), LevelFilter::Warn);
    assert_eq!(logger.module_level(""), LevelFilter::Warn);
}

#[test]
fn later_module_filter_applies_where_earlier_does_not_match() {
    let logger = LoggerBuilder::new()
        .level_for_module_path("a::b", LevelFilter::Error)
        .level_for_module_path("a", LevelFilter::Trace)
        .build();
    assert_eq!(logger.module_level("a::b::c"), LevelFilter::Error);
    assert_eq!(logger.module_level("a::x"), LevelFilter::Trace);
    assert_eq!(logger.module_level("b"), LevelFilter::Off);
}

#[test]
fn builder_defaults_to_off() {
    let logger = LoggerBuilder::new().build();
    assert_eq!(logger.module_level("anything"), LevelFilter::Off);
    assert_eq!(logger.log(0, &record(Level::Error, Some("anything"), None, None, "x")), None);
}

#[test]
fn cef_level_mapping() {
    assert_eq!(Logger::cef_level(Level::Error), 2);
    assert_eq!(Logger::cef_level(Level::Warn), 1);
    assert_eq!(Logger::cef_level(Level::Info), 0);
    assert_eq!(Logger::cef_level(Level::Debug), 0);
    assert_eq!(Logger::cef_level(Level::Trace), 0);
}

#[test]
fn cef_min_severity_mapping() {
    assert_eq!(Logger::log_level(1), Level::Debug);
    assert_eq!(Logger::log_level(2), Level::Info);
    assert_eq!(Logger::log_level(0), Level::Error);
    assert_eq!(Logger::log_level(3), Level::Warn);
    assert_eq!(Logger::log_level(4), Level::Error);
}

#[test]
fn enabled_follows_cef_min_severity() {
    let logger = doc_logger();
    // INFO lets through info and everything more severe.
    assert!(logger.enabled(2, Level::Error));
    assert!(logger.enabled(2, Level::Warn));
    assert!(logger.enabled(2, Level::Info));
    assert!(!logger.enabled(2, Level::Debug));
    // VERBOSE/DEBUG lets through debug.
    assert!(logger.enabled(1, Level::Debug));
    assert!(!logger.enabled(1, Level::Trace));
    // WARNING lets through warnings and errors.
    assert!(logger.enabled(3, Level::Error));
    assert!(logger.enabled(3, Level::Warn));
    assert!(!logger.enabled(3, Level::Info));
    // ERROR only lets errors through.
    assert!(logger.enabled(4, Level::Error));
    assert!(!logger.enabled(4, Level::Warn));
    // DISABLE lets nothing through.
    assert!(!logger.enabled(LOGSEVERITY_DISABLE, Level::Error));
}

#[test]
fn log_passes_both_filters() {
    let logger = doc_logger();
    let msg = logger.log(1, &record(Level::Debug, Some("mycrate::net"), Some("src/net.rs"), Some(42), "Hello World!"));
    assert_eq!(
        msg,
        Some(CefLogMessage {
            file: "src/net.rs".to_string(),
            line: 42,
            severity: 0,
            text: "Hello World!".to_string(),
        })
    );
    // other modules use the default filter (Warn)
    assert_eq!(logger.log(1, &record(Level::Info, Some("other"), None, None, "x")), None);
    let warn = logger.log(1, &record(Level::Warn, Some("other"), None, None, "w")).unwrap();
    assert_eq!(warn.severity, 1);
    // CEF's filter blocks debug output when its minimum is INFO
    assert_eq!(logger.log(2, &record(Level::Debug, Some("mycrate"), None, None, "x")), None);
    // disabled CEF logging blocks everything
    assert_eq!(logger.log(LOGSEVERITY_DISABLE, &record(Level::Error, Some("mycrate"), None, None, "x")), None);
}

#[test]
fn log_without_module_path_skips_module_filter() {
    let logger = Logger::builder().build();
    let msg = logger.log(1, &record(Level::Debug, None, None, None, "no module")).unwrap();
    assert_eq!(msg.file, "<unknown>");
    assert_eq!(msg.line, 0);
}

#[test]
fn log_rejects_interior_nul_in_message() {
    let logger = doc_logger();
    assert_eq!(logger.log(1, &record(Level::Error, Some("mycrate"), None, None, "a\0b")), None);
}

#[test]
fn log_replaces_unusable_file_name() {
    let logger = doc_logger();
    let msg = logger.log(1, &record(Level::Error, Some("mycrate"), Some("bad\0name"), Some(7), "m")).unwrap();
    assert_eq!(msg.file, "<unknown>");
    assert_eq!(msg.line, 7);
    assert_eq!(msg.severity, 2);
    assert_eq!(msg.text, "m");
}

#[test]
fn log_line_wraps_to_c_int() {
    let logger = doc_logger();
    let msg = logger.log(1, &record(Level::Error, None, Some("f"), Some(u32::MAX), "m")).unwrap();
    assert_eq!(msg.line, -1);
}

#[test]
fn module_path_prefix_is_bytewise() {
    let logger = Logger::builder().level_for_module_path("crâte", LevelFilter::Info).build();
    assert_eq!(logger.module_level("crâte::x"), LevelFilter::Info);
    assert_eq!(logger.module_level("crate::x"), LevelFilter::Off);
}

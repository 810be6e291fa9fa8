use rust_web::logging::{parse_level, LogLevel, LoggingConfig};

#[test]
fn test_logging_config_default() {
    let config = LoggingConfig::default();
    assert_eq!(config.level, LogLevel::Info);
    assert!(!config.json_format);
    assert!(config.colorize);
    assert!(config.log_dir.is_none());
}

#[test]
fn test_logging_config_builder() {
    let config = LoggingConfig::new()
        .level(LogLevel::Debug)
        .json_format(true)
        .log_dir("/var/log".to_string())
        .colorize(false);

    assert_eq!(config.level, LogLevel::Debug);
    assert!(config.json_format);
    assert!(!config.colorize);
    assert_eq!(config.log_dir, Some("/var/log".to_string()));
}

#[test]
fn test_parse_level() {
    assert_eq!(parse_level("trace"), Some(LogLevel::Trace));
    assert_eq!(parse_level("DEBUG"), Some(LogLevel::Debug));
    assert_eq!(parse_level("Info"), Some(LogLevel::Info));
    assert_eq!(parse_level("warn"), Some(LogLevel::Warn));
    assert_eq!(parse_level("ERROR"), Some(LogLevel::Error));
    assert_eq!(parse_level("invalid"), None);
}

#[test]
fn parse_level_rejects_near_misses() {
    assert_eq!(parse_level(""), None);
    assert_eq!(parse_level("warning"), None);
    assert_eq!(parse_level("inf"), None);
}

//! Logging configuration: the severity scale, the settings record, and the
//! parser for level names.  Installing a subscriber is left to the process
//! around the library.

use vstd::prelude::*;

use crate::text::eq_ignore_ascii_case;
use crate::text::str_eq_ignore_ascii_case;

verus! {

/// Log severity, least to most severe.
#[derive(Clone, Copy, Debug, PartialEq, Eq, Structural)]
pub enum LogLevel {
    Trace,
    Debug,
    Info,
    Warn,
    Error,
}

/// Logging configuration.
#[derive(Debug, Clone)]
pub struct LoggingConfig {
    /// Log level (TRACE, DEBUG, INFO, WARN, ERROR)
    pub level: LogLevel,
    /// Output JSON format
    pub json_format: bool,
    /// Optional log directory for file output
    pub log_dir: Option<String>,
    /// Colorize terminal output
    pub colorize: bool,
}

impl Default for LoggingConfig {
    fn default() -> (r: Self)
        ensures
            r.level == LogLevel::Info,
            !r.json_format,
            r.log_dir is None,
            r.colorize,
    {
        LoggingConfig { level: LogLevel::Info, json_format: false, log_dir: None, colorize: true }
    }
}

impl LoggingConfig {
    pub fn new() -> (r: Self)
        ensures
            r.level == LogLevel::Info,
            !r.json_format,
            r.log_dir is None,
            r.colorize,
    {
        Self::default()
    }

    pub fn level(self, level: LogLevel) -> (r: Self)
        ensures
            r.level == level,
            r.json_format == self.json_format,
            r.log_dir == self.log_dir,
            r.colorize == self.colorize,
    {
        LoggingConfig { level, ..self }
    }

    pub fn json_format(self, enabled: bool) -> (r: Self)
        ensures
            r.json_format == enabled,
            r.level == self.level,
            r.log_dir == self.log_dir,
            r.colorize == self.colorize,
    {
        LoggingConfig { json_format: enabled, ..self }
    }

    pub fn log_dir(self, dir: String) -> (r: Self)
        ensures
            r.log_dir == Some(dir),
            r.level == self.level,
            r.json_format == self.json_format,
            r.colorize == self.colorize,
    {
        LoggingConfig { log_dir: Some(dir), ..self }
    }

    pub fn colorize(self, enabled: bool) -> (r: Self)
        ensures
            r.colorize == enabled,
            r.level == self.level,
            r.json_format == self.json_format,
            r.log_dir == self.log_dir,
    {
        LoggingConfig { colorize: enabled, ..self }
    }
}

/// The level a name designates: the five level names, compared without
/// regard to ASCII case; anything else designates none.
pub open spec fn spec_parse_level(s: Seq<char>) -> Option<LogLevel> {
    if eq_ignore_ascii_case(s, "trace"@) {
        Some(LogLevel::Trace)
    } else if eq_ignore_ascii_case(s, "debug"@) {
        Some(LogLevel::Debug)
    } else if eq_ignore_ascii_case(s, "info"@) {
        Some(LogLevel::Info)
    } else if eq_ignore_ascii_case(s, "warn"@) {
        Some(LogLevel::Warn)
    } else if eq_ignore_ascii_case(s, "error"@) {
        Some(LogLevel::Error)
    } else {
        None
    }
}

/// Parse log level from string.
pub fn parse_level(level: &str) -> (r: Option<LogLevel>)
    ensures
        r == spec_parse_level(level@),
{
    if str_eq_ignore_ascii_case(level, "trace") {
        Some(LogLevel::Trace)
    } else if str_eq_ignore_ascii_case(level, "debug") {
        Some(LogLevel::Debug)
    } else if str_eq_ignore_ascii_case(level, "info") {
        Some(LogLevel::Info)
    } else if str_eq_ignore_ascii_case(level, "warn") {
        Some(LogLevel::Warn)
    } else if str_eq_ignore_ascii_case(level, "error") {
        Some(LogLevel::Error)
    } else {
        None
    }
}

} // verus!

//! The severity threshold named in the logging configuration.

use vstd::prelude::*;
use crate::text::str_eq;

verus! {

/// A logging severity threshold.
#[derive(Debug, Clone, Copy, PartialEq, Eq, Structural)]
pub enum LogLevel {
    Critical,
    Error,
    Warning,
    Info,
}

/// The threshold a configured name stands for; unknown names mean `Info`.
pub open spec fn level_named(name: Seq<char>) -> LogLevel {
    if name == "INFO"@ {
        LogLevel::Info
    } else if name == "WARNING"@ {
        LogLevel::Warning
    } else if name == "ERROR"@ {
        LogLevel::Error
    } else if name == "CRITICAL"@ {
        LogLevel::Critical
    } else {
        LogLevel::Info
    }
}

/// The threshold that the configured name `level` stands for.
pub fn log_level(level: &str) -> (threshold: LogLevel)
    ensures
        threshold == level_named(level@),
{
    if str_eq(level, "INFO") {
        LogLevel::Info
    } else if str_eq(level, "WARNING") {
        LogLevel::Warning
    } else if str_eq(level, "ERROR") {
        LogLevel::Error
    } else if str_eq(level, "CRITICAL") {
        LogLevel::Critical
    } else {
        LogLevel::Info
    }
}

} // verus!

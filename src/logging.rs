//! The log line prefix that names a record's level.
use vstd::prelude::*;

verus! {

/// The level of a log record, most severe first.
#[derive(Debug, Clone, Copy, PartialEq, Eq, Structural)]
pub enum LogLevel {
    Error,
    Warn,
    Info,
    Debug,
    Trace,
}

/// One letter for the common levels; the full upper-case name for trace.
pub open spec fn level_tag(level: LogLevel) -> Seq<char> {
    match level {
        LogLevel::Error => "E"@,
        LogLevel::Warn => "W"@,
        LogLevel::Info => "I"@,
        LogLevel::Debug => "D"@,
        LogLevel::Trace => "TRACE"@,
    }
}

/// The tag that starts a log line of this level.
pub fn short_level(level: LogLevel) -> (r: String)
    ensures
        r@ == level_tag(level),
{
    match level {
        LogLevel::Error => String::from_str("E"),
        LogLevel::Warn => String::from_str("W"),
        LogLevel::Info => String::from_str("I"),
        LogLevel::Debug => String::from_str("D"),
        LogLevel::Trace => String::from_str("TRACE"),
    }
}

} // verus!

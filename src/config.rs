//! Process configuration: log format, log level and dry-run.

use vstd::prelude::*;

verus! {

/// How log lines are rendered.
#[derive(Debug, Clone, Copy, PartialEq, Eq, Structural)]
pub enum LogFormat {
    Plain,
    Json,
}

/// The least severe level that is still logged.
#[derive(Debug, Clone, Copy, PartialEq, Eq, Structural)]
pub enum LogLevel {
    Trace,
    Debug,
    Info,
    Warn,
    Error,
}

/// Process configuration, read once at start-up.
#[derive(Debug, Clone, Copy, PartialEq, Eq, Structural)]
pub struct Config {
    /// Logging format to use.
    pub log_format: LogFormat,
    /// Log level.
    pub log_level: LogLevel,
    /// Dry-run.
    pub dry_run: bool,
}

/// Relies on atty::is(Stream::Stdout): whether standard output is a
/// terminal. That depends on how the process was started, so nothing is
/// stated of the answer.
#[verifier::external_body]
fn stdout_is_terminal() -> (r: bool) {
    atty::is(atty::Stream::Stdout)
}

/// The severity rank of a level, from 0 for `Trace` up to 4 for `Error`.
pub open spec fn level_rank(level: LogLevel) -> u8 {
    match level {
        LogLevel::Trace => 0,
        LogLevel::Debug => 1,
        LogLevel::Info => 2,
        LogLevel::Warn => 3,
        LogLevel::Error => 4,
    }
}

impl LogLevel {
    /// The severity rank of this level: a more severe level ranks higher.
    pub fn rank(&self) -> (r: u8)
        ensures
            r == level_rank(*self),
    {
        match self {
            LogLevel::Trace => 0,
            LogLevel::Debug => 1,
            LogLevel::Info => 2,
            LogLevel::Warn => 3,
            LogLevel::Error => 4,
        }
    }
}

impl LogFormat {
    /// The format for a process whose standard output is, or is not, a
    /// terminal: plain text for a person, JSON for a log collector.
    pub fn for_terminal(is_terminal: bool) -> (r: LogFormat)
        ensures
            is_terminal ==> r == LogFormat::Plain,
            !is_terminal ==> r == LogFormat::Json,
    {
        if is_terminal {
            LogFormat::Plain
        } else {
            LogFormat::Json
        }
    }
}

impl Default for LogFormat {
    /// Plain text when standard output is a terminal, JSON otherwise.
    fn default() -> (r: LogFormat)
        ensures
            r == LogFormat::Plain || r == LogFormat::Json,
    {
        LogFormat::for_terminal(stdout_is_terminal())
    }
}

} // verus!

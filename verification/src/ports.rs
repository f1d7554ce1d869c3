//! The capabilities that the orchestration logic is given from outside,
//! and the vocabulary it uses to speak to them.
//!
//! A port is a set of operations with no behaviour of its own: the program
//! binds one adapter to each port at startup and hands it, by shared
//! ownership, to every task that needs it. The key-value store's port
//! stands with its adapter in [`crate::store`]. The ports of the web server
//! and of the stress-test runner, whose operations suspend, are declared by
//! the program next to its scheduler.

use vstd::prelude::*;

verus! {

/// Severity of a log line.
#[derive(Clone, Copy, Debug, PartialEq, Eq, Structural)]
pub enum Level {
    Info,
    Warn,
    Error,
}

/// One line for the log: what is said and how loudly.
#[derive(Clone, Debug, PartialEq, Eq)]
pub struct LogLine {
    pub level: Level,
    pub message: String,
}

/// A log line as contracts see it.
pub struct LogEntry {
    pub level: Level,
    pub text: Seq<char>,
}

impl View for LogLine {
    type V = LogEntry;

    open spec fn view(&self) -> LogEntry {
        LogEntry { level: self.level, text: self.message@ }
    }
}

impl LogLine {
    /// A line at `Info` level.
    pub fn info(message: String) -> (line: LogLine)
        ensures
            line@ == (LogEntry { level: Level::Info, text: message@ }),
    {
        LogLine { level: Level::Info, message }
    }

    /// A line at `Warn` level.
    pub fn warn(message: String) -> (line: LogLine)
        ensures
            line@ == (LogEntry { level: Level::Warn, text: message@ }),
    {
        LogLine { level: Level::Warn, message }
    }

    /// A line at `Error` level.
    pub fn error(message: String) -> (line: LogLine)
        ensures
            line@ == (LogEntry { level: Level::Error, text: message@ }),
    {
        LogLine { level: Level::Error, message }
    }
}

/// A sink for plain messages.
///
/// Logging is a side effect only: an adapter never fails its caller, and
/// reports trouble with its own transport out of band.
pub trait Logger: Send + Sync {
    fn log(&self, message: &str);
}

/// A sink for messages at the three severities the tool uses.
///
/// Adapters are shared between tasks and must accept concurrent calls
/// without locking on the caller's side. Like [`Logger`], an adapter never
/// fails its caller.
pub trait LoggerPort: Send + Sync {
    fn log_info(&self, message: &str);

    fn log_warn(&self, message: &str);

    fn log_error(&self, message: &str);
}

/// A source of process statistics.
///
/// One call samples CPU and memory use per process and appends the sample
/// to the file at `output_file_path`. The call may block for as long as
/// sampling takes, so it is never made on the cooperative scheduler's
/// pool. Failures are reported to the log, not to the caller.
pub trait PsCommandPort: Send + Sync {
    fn collect_cpu_statistics(&self, output_file_path: &str);
}

} // verus!

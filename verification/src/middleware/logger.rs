//! Where a log message goes: messages up to `Debug` are printed, messages
//! up to `Info` are also appended to the log file.
use vstd::prelude::*;

use crate::text::owned;

verus! {

/// The severity of a log message, from the most to the least severe.
#[derive(Debug, Clone, Copy, PartialEq, Eq, Structural)]
pub enum LogLevel {
    Error,
    Warn,
    Info,
    Debug,
    Trace,
}

/// The rank of a level: 1 for the most severe.
pub open spec fn rank(level: LogLevel) -> int {
    match level {
        LogLevel::Error => 1,
        LogLevel::Warn => 2,
        LogLevel::Info => 3,
        LogLevel::Debug => 4,
        LogLevel::Trace => 5,
    }
}

/// How a level is written.
pub open spec fn level_label(level: LogLevel) -> Seq<char> {
    match level {
        LogLevel::Error => "ERROR"@,
        LogLevel::Warn => "WARN"@,
        LogLevel::Info => "INFO"@,
        LogLevel::Debug => "DEBUG"@,
        LogLevel::Trace => "TRACE"@,
    }
}

/// The lines that one message produces.
pub struct LogOutput {
    /// The line printed to the console, if any.
    pub console: Option<String>,
    /// The line appended to the log file, if any.
    pub file: Option<String>,
}

fn level_text(level: LogLevel) -> (r: String)
    ensures
        r@ == level_label(level),
{
    match level {
        LogLevel::Error => owned("ERROR"),
        LogLevel::Warn => owned("WARN"),
        LogLevel::Info => owned("INFO"),
        LogLevel::Debug => owned("DEBUG"),
        LogLevel::Trace => owned("TRACE"),
    }
}

/// The lines of a message: `[LEVEL] - message` on the console for levels
/// up to `Debug`, and `LEVEL - message` in the log file for levels up to
/// `Info`.
pub fn log_output(level: LogLevel, message: &str) -> (r: LogOutput)
    ensures
        rank(level) <= 4 ==> (r.console matches Some(line) && line@ == "["@ + level_label(level)
            + "] - "@ + message@),
        rank(level) > 4 ==> r.console is None,
        rank(level) <= 3 ==> (r.file matches Some(line) && line@ == level_label(level) + " - "@
            + message@),
        rank(level) > 3 ==> r.file is None,
        r.file is Some ==> r.console is Some,
{
    let console = match level {
        LogLevel::Trace => None,
        _ => {
            let mut line = owned("[");
            let name = level_text(level);
            line.append(name.as_str());
            line.append("] - ");
            line.append(message);
            Some(line)
        },
    };
    let file = match level {
        LogLevel::Debug | LogLevel::Trace => None,
        _ => {
            let mut line = level_text(level);
            line.append(" - ");
            line.append(message);
            Some(line)
        },
    };
    LogOutput { console, file }
}

} // verus!

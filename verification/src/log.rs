//! The diagnostic log: an append-only list of messages with a severity.

use vstd::prelude::*;

verus! {

/// Severity of a log message.
#[derive(Clone, Copy, Debug, PartialEq, Eq, Structural)]
pub enum LogType {
    Log,
    Warning,
    Error,
}

/// One message of the log.
#[derive(Clone, Debug, PartialEq, Eq)]
pub struct LogMsg {
    pub log_type: LogType,
    pub message: String,
}

impl View for LogMsg {
    type V = (LogType, Seq<char>);

    open spec fn view(&self) -> (LogType, Seq<char>) {
        (self.log_type, self.message@)
    }
}

/// The messages of a log buffer, each as its severity and text.
pub open spec fn log_views(buffer: Seq<LogMsg>) -> Seq<(LogType, Seq<char>)> {
    Seq::new(buffer.len(), |i: int| buffer[i]@)
}

impl LogMsg {
    /// A message of severity `Log`.
    pub fn log(msg: &str) -> (entry: Self)
        ensures
            entry@ == (LogType::Log, msg@),
    {
        LogMsg { log_type: LogType::Log, message: msg.to_owned() }
    }

    /// A message of severity `Warning`.
    pub fn warn(msg: &str) -> (entry: Self)
        ensures
            entry@ == (LogType::Warning, msg@),
    {
        LogMsg { log_type: LogType::Warning, message: msg.to_owned() }
    }

    /// A message of severity `Error`.
    pub fn error(msg: &str) -> (entry: Self)
        ensures
            entry@ == (LogType::Error, msg@),
    {
        LogMsg { log_type: LogType::Error, message: msg.to_owned() }
    }
}

} // verus!

use vstd::prelude::*;
use vstd::string::StringExecFns;

verus! {

/// The severity of a log message.
pub enum LogLevel {
    Info,
    Warning,
    Error,
}

/// A log message: a severity and its text.
pub struct LogMessage {
    pub level: LogLevel,
    pub msg: String,
}

/// The rendered form of a log message: its text behind a tag that names
/// the severity.
pub open spec fn log_line(log: LogMessage) -> Seq<char> {
    match log.level {
        LogLevel::Info => "[INFO] "@ + log.msg@,
        LogLevel::Warning => "[WARNING] "@ + log.msg@,
        LogLevel::Error => "[ERROR] "@ + log.msg@,
    }
}

/// Renders a log message as one line tagged with its severity.
pub fn format_log(log: LogMessage) -> (r: String)
    ensures
        r@ == log_line(log),
{
    match log.level {
        LogLevel::Info => String::from_str("[INFO] ").concat(log.msg.as_str()),
        LogLevel::Warning => String::from_str("[WARNING] ").concat(log.msg.as_str()),
        LogLevel::Error => String::from_str("[ERROR] ").concat(log.msg.as_str()),
    }
}

} // verus!

//! How log lines are labelled.
use vstd::prelude::*;
use crate::util::chars::string_from_str;

verus! {

/// The kind of a log line.
#[derive(Clone, Copy, Debug, PartialEq, Eq, Structural)]
pub enum LogKind {
    Info,
    Success,
    Warn,
    Error,
}

/// The terminal color a status label is printed in.
#[derive(Clone, Copy, Debug, PartialEq, Eq, Structural)]
pub enum LogColor {
    Blue,
    Green,
    Yellow,
    Red,
}

/// The status label of a line of kind `kind` (no kind counts as `Info`).
pub open spec fn spec_status_label(kind: Option<LogKind>) -> Seq<char> {
    match kind {
        Some(LogKind::Success) => "DONE"@,
        Some(LogKind::Warn) => "WARN"@,
        Some(LogKind::Error) => "FAIL"@,
        _ => "INFO"@,
    }
}

/// The status label of a line, and the color it is printed in.
pub fn status_label(kind: Option<LogKind>) -> (r: (String, LogColor))
    ensures
        r.0@ == spec_status_label(kind),
        r.1 == match kind {
            Some(LogKind::Success) => LogColor::Green,
            Some(LogKind::Warn) => LogColor::Yellow,
            Some(LogKind::Error) => LogColor::Red,
            _ => LogColor::Blue,
        },
{
    match kind {
        Some(LogKind::Success) => (string_from_str("DONE"), LogColor::Green),
        Some(LogKind::Warn) => (string_from_str("WARN"), LogColor::Yellow),
        Some(LogKind::Error) => (string_from_str("FAIL"), LogColor::Red),
        _ => (string_from_str("INFO"), LogColor::Blue),
    }
}

/// A log line: "[time] [status] message".
pub fn log_line(time: &str, status: &str, message: &str) -> (r: String)
    ensures
        r@ == "["@ + time@ + "] ["@ + status@ + "] "@ + message@,
{
    let mut r = string_from_str("[");
    r.append(time);
    r.append("] [");
    r.append(status);
    r.append("] ");
    r.append(message);
    r
}

} // verus!

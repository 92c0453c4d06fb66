//! The look of the bot's log lines: each line starts with an ANSI style
//! chosen by the record's level.

use vstd::prelude::*;
use vstd::string::*;

verus! {

/// The level of a log record, from most to least severe.
#[derive(PartialEq, Eq, Structural, Clone, Copy, Debug)]
pub enum LogLevel {
    Error,
    Warn,
    Info,
    Debug,
    Trace,
}

/// The ANSI escape sequence that styles a line of level `level`: errors
/// bold, underlined red; warnings bold, underlined yellow; info bold blue;
/// trace dim; debug a bare escape character.
pub open spec fn level_style(level: LogLevel) -> Seq<char> {
    match level {
        LogLevel::Error => "\u{001b}[1;4;31m"@,
        LogLevel::Warn => "\u{001b}[1;4;33m"@,
        LogLevel::Info => "\u{001b}[1;34m"@,
        LogLevel::Debug => "\u{001b}"@,
        LogLevel::Trace => "\u{001b}[2m"@,
    }
}

/// The name of a level, as the `log` crate writes it.
pub open spec fn level_name_text(level: LogLevel) -> Seq<char> {
    match level {
        LogLevel::Error => "ERROR"@,
        LogLevel::Warn => "WARN"@,
        LogLevel::Info => "INFO"@,
        LogLevel::Debug => "DEBUG"@,
        LogLevel::Trace => "TRACE"@,
    }
}

/// The ANSI escape sequence that starts a log line of level `level`.
pub fn level_format(level: LogLevel) -> (style: &'static str)
    ensures
        style@ == level_style(level),
{
    match level {
        LogLevel::Error => "\u{001b}[1;4;31m",
        LogLevel::Warn => "\u{001b}[1;4;33m",
        LogLevel::Info => "\u{001b}[1;34m",
        LogLevel::Debug => "\u{001b}",
        LogLevel::Trace => "\u{001b}[2m",
    }
}

/// `log::Level::as_str`, the name that `log` gives a level (also what its
/// `Display` writes): "ERROR", "WARN", "INFO", "DEBUG" or "TRACE".
#[verifier::external_body]
fn level_name(level: LogLevel) -> (name: &'static str)
    ensures
        name@ == level_name_text(level),
{
    let level = match level {
        LogLevel::Error => log::Level::Error,
        LogLevel::Warn => log::Level::Warn,
        LogLevel::Info => log::Level::Info,
        LogLevel::Debug => log::Level::Debug,
        LogLevel::Trace => log::Level::Trace,
    };
    level.as_str()
}

/// A log line (without its line break): the level's style, the level's
/// name, the target in brackets, a reset of the style, and the message.
pub open spec fn record_line(level: LogLevel, target: Seq<char>, message: Seq<char>) -> Seq<char> {
    level_style(level) + level_name_text(level) + " ["@ + target + "]\u{001b}[0m - "@ + message
}

/// Formats a log record of level `level` from `target` with text `message`.
pub fn format_record(level: LogLevel, target: &str, message: &str) -> (line: String)
    ensures
        line@ == record_line(level, target@, message@),
{
    let mut line = String::from_str(level_format(level));
    line.append(level_name(level));
    line.append(" [");
    line.append(target);
    line.append("]\u{001b}[0m - ");
    line.append(message);
    line
}

/// A log line ends with the whole message: it is the line for the same
/// level and target with an empty message, followed by the message. So two
/// records of the same level and target differ only in their messages, and
/// the line is as long as that prefix plus the message.
pub proof fn law_log_line_ends_with_message(
    level: LogLevel,
    target: Seq<char>,
    message: Seq<char>,
)
    ensures
        record_line(level, target, message) == record_line(level, target, Seq::empty()) + message,
        record_line(level, target, message).len() == record_line(level, target, Seq::empty()).len()
            + message.len(),
        record_line(level, target, message).subrange(
            record_line(level, target, message).len() - message.len(),
            record_line(level, target, message).len() as int,
        ) == message,
{
    let prefix = record_line(level, target, Seq::empty());
    assert(record_line(level, target, message) =~= prefix + message);
    assert((prefix + message).subrange(prefix.len() as int, (prefix + message).len() as int)
        =~= message);
}

} // verus!

//! The messages of the log tab: a line of text with the time at which it was
//! written, and its kind.

use time::OffsetDateTime;
use vstd::prelude::*;
use vstd::std_specs::convert::IntoSpec;
use vstd::string::*;
use crate::utils::{decimal, push_decimal, push_char};

verus! {

/// The kind of a message.
#[derive(Debug, Clone, Copy, PartialEq, Eq, Structural)]
pub enum LogType {
    Info,
    Warn,
    Error,
}

/// A message of the log: its line, and its kind.
#[derive(Debug)]
pub struct LogMessage {
    message: String,
    log_type: LogType,
}

/// The stamp of a date and a time of day: `[date h:m:s]`, the numbers as
/// they are, without leading zeros.
pub open spec fn stamp_text(date: Seq<char>, hour: u8, minute: u8, second: u8) -> Seq<char> {
    seq!['['] + date + seq![' '] + decimal(hour as nat) + seq![':'] + decimal(minute as nat)
        + seq![':'] + decimal(second as nat) + seq![']']
}

/// The line of a message: its stamp, its kind in square brackets, its text.
pub open spec fn line_text(stamp: Seq<char>, kind: Seq<char>, message: Seq<char>) -> Seq<char> {
    stamp + seq![' ', '['] + kind + seq![']', ' '] + message
}

/// Reads the clock with `OffsetDateTime::now_local` of the time crate, or
/// with `now_utc` where the local offset cannot be had, and returns the date
/// as the crate prints it, the hour, the minute and the second.
#[verifier::external_body]
fn clock() -> (now: (String, u8, u8, u8)) {
    let now = OffsetDateTime::now_local().unwrap_or(OffsetDateTime::now_utc());
    let (hour, minute, second) = now.to_hms();
    (now.date().to_string(), hour, minute, second)
}

/// Writes the stamp of a date and a time of day.
pub fn write_stamp(date: &str, hour: u8, minute: u8, second: u8) -> (text: String)
    ensures
        text@ == stamp_text(date@, hour, minute, second),
{
    let mut text = String::new();
    push_char(&mut text, '[');
    text.append(date);
    push_char(&mut text, ' ');
    push_decimal(&mut text, hour as u64);
    push_char(&mut text, ':');
    push_decimal(&mut text, minute as u64);
    push_char(&mut text, ':');
    push_decimal(&mut text, second as u64);
    push_char(&mut text, ']');
    assert(text@ =~= stamp_text(date@, hour, minute, second));
    text
}

/// Writes the line of a message from its stamp, its kind and its text.
pub fn write_line(stamp: &str, kind: &str, message: &str) -> (text: String)
    ensures
        text@ == line_text(stamp@, kind@, message@),
{
    let mut text = String::new();
    text.append(stamp);
    push_char(&mut text, ' ');
    push_char(&mut text, '[');
    text.append(kind);
    push_char(&mut text, ']');
    push_char(&mut text, ' ');
    text.append(message);
    assert(text@ =~= line_text(stamp@, kind@, message@));
    text
}

/// Whether `text` is the line of a message of the given kind and text,
/// written at some date and time of day.
pub open spec fn is_line_of(text: Seq<char>, kind: Seq<char>, message: Seq<char>) -> bool {
    exists|date: Seq<char>, hour: u8, minute: u8, second: u8|
        text == line_text(#[trigger] stamp_text(date, hour, minute, second), kind, message)
}

/// The name of a kind of message, as the log prints it.
pub open spec fn kind_name(kind: LogType) -> Seq<char> {
    match kind {
        LogType::Info => "INFO"@,
        LogType::Warn => "WARN"@,
        LogType::Error => "ERROR"@,
    }
}

impl LogType {
    /// The name of the kind, as the log prints it.
    pub fn name(self) -> (name: &'static str)
        ensures
            name@ == kind_name(self),
    {
        match self {
            LogType::Info => "INFO",
            LogType::Warn => "WARN",
            LogType::Error => "ERROR",
        }
    }
}

impl LogMessage {
    /// The line of the message.
    pub closed spec fn line_of(&self) -> Seq<char> {
        self.message@
    }

    /// The kind of the message.
    pub closed spec fn kind_of(&self) -> LogType {
        self.log_type
    }

    /// A message with the given line and kind, as they are.
    pub fn with_line(message: String, log_type: LogType) -> (log: LogMessage)
        ensures
            log.line_of() == message@,
            log.kind_of() == log_type,
    {
        LogMessage { message, log_type }
    }

    /// The line of a message of kind `typ` and text `m`, stamped now.
    pub fn format_text(m: String, typ: &str) -> (text: String)
        ensures
            is_line_of(text@, typ@, m@),
    {
        let now = clock();
        let mark = write_stamp(now.0.as_str(), now.1, now.2, now.3);
        let text = write_line(mark.as_str(), typ, m.as_str());
        assert(text@ == line_text(stamp_text(now.0@, now.1, now.2, now.3), typ@, m@));
        text
    }

    /// A message of the given kind and text, stamped now.
    pub fn stamped(message: String, log_type: LogType) -> (log: LogMessage)
        ensures
            log.kind_of() == log_type,
            is_line_of(log.line_of(), kind_name(log_type), message@),
    {
        LogMessage { message: Self::format_text(message, log_type.name()), log_type }
    }

    /// A message of kind `Info`, stamped now.
    pub fn info<T: Into<String>>(message: T) -> (log: LogMessage)
        ensures
            log.kind_of() == LogType::Info,
            exists|text: Seq<char>| #[trigger] is_line_of(log.line_of(), "INFO"@, text),
            <T as IntoSpec<String>>::obeys_into_spec() ==> is_line_of(log.line_of(), "INFO"@, <T as IntoSpec<String>>::into_spec(message)@),
    {
        let text: String = message.into();
        let log = Self::stamped(text, LogType::Info);
        assert(is_line_of(log.line_of(), "INFO"@, text@));
        log
    }

    /// A message of kind `Warn`, stamped now.
    pub fn warn<T: Into<String>>(message: T) -> (log: LogMessage)
        ensures
            log.kind_of() == LogType::Warn,
            exists|text: Seq<char>| #[trigger] is_line_of(log.line_of(), "WARN"@, text),
            <T as IntoSpec<String>>::obeys_into_spec() ==> is_line_of(log.line_of(), "WARN"@, <T as IntoSpec<String>>::into_spec(message)@),
    {
        let text: String = message.into();
        let log = Self::stamped(text, LogType::Warn);
        assert(is_line_of(log.line_of(), "WARN"@, text@));
        log
    }

    /// A message of kind `Error`, stamped now.
    pub fn error<T: Into<String>>(message: T) -> (log: LogMessage)
        ensures
            log.kind_of() == LogType::Error,
            exists|text: Seq<char>| #[trigger] is_line_of(log.line_of(), "ERROR"@, text),
            <T as IntoSpec<String>>::obeys_into_spec() ==> is_line_of(log.line_of(), "ERROR"@, <T as IntoSpec<String>>::into_spec(message)@),
    {
        let text: String = message.into();
        let log = Self::stamped(text, LogType::Error);
        assert(is_line_of(log.line_of(), "ERROR"@, text@));
        log
    }

    /// The line of the message.
    pub fn text(&self) -> (text: String)
        ensures
            text@ == self.line_of(),
    {
        self.message.clone()
    }

    /// The kind of the message.
    pub fn log_type(&self) -> (kind: LogType)
        ensures
            kind == self.kind_of(),
    {
        self.log_type
    }
}

/// The tab that shows the log. It holds nothing of its own.
#[derive(Debug, Clone, Copy, PartialEq, Eq, Structural)]
pub struct LogTab;

impl LogTab {
    /// The tab.
    pub fn build() -> (tab: LogTab)
        ensures
            tab == LogTab,
    {
        LogTab
    }
}

} // verus!

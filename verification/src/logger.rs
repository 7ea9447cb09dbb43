//! A logger that writes one line per message, tagged with a coloured level.
//! It builds the lines; printing them is left to the caller.

use crossterm::style::Stylize;
use vstd::prelude::*;
use vstd::string::StringExecFns;

verus! {

/// How grave a message is.
#[derive(Debug, Clone, Copy, PartialEq, Eq, Structural)]
pub enum LogLevel {
    Debug,
    Info,
    Warn,
    Error,
}

impl Default for LogLevel {
    fn default() -> (level: Self)
        ensures
            level == LogLevel::Info,
    {
        Self::Info
    }
}

/// `text` in the foreground colour `color` of the 256-colour palette, as a
/// terminal takes it: the escape sequence that sets the colour, the text,
/// and the escape sequence that sets the default colour again.
pub open spec fn spec_colored(text: Seq<char>, color: Seq<char>) -> Seq<char> {
    "\x1B[38;5;"@ + color + "m"@ + text + "\x1B[39m"@
}

/// A line of the log: the tag in square brackets, a space, the message.
pub open spec fn spec_line(tag: Seq<char>, message: Seq<char>) -> Seq<char> {
    "["@ + tag + "] "@ + message
}

/// Whether `line` is the line for `message` under the tag `label` in the
/// colour `color`. Where the terminal takes no escape sequences the tag
/// comes out empty.
pub open spec fn spec_is_line(
    line: Seq<char>,
    label: Seq<char>,
    color: Seq<char>,
    message: Seq<char>,
) -> bool {
    line == spec_line(spec_colored(label, color), message) || line == spec_line(
        Seq::empty(),
        message,
    )
}

/// Calls `Stylize::dark_blue` of crossterm on `label` and renders the result.
/// That gives the label between the escape sequences for colour 4 and for
/// the default colour; on a Windows console without support for escape
/// sequences it gives the empty string.
#[verifier::external_body]
fn dark_blue(label: &str) -> (styled: String)
    ensures
        styled@ == spec_colored(label@, "4"@) || styled@.len() == 0,
{
    format!("{}", label.to_string().dark_blue())
}

/// Calls `Stylize::dark_green` of crossterm on `label` and renders the
/// result. That gives the label between the escape sequences for colour 2
/// and for the default colour; on a Windows console without support for
/// escape sequences it gives the empty string.
#[verifier::external_body]
fn dark_green(label: &str) -> (styled: String)
    ensures
        styled@ == spec_colored(label@, "2"@) || styled@.len() == 0,
{
    format!("{}", label.to_string().dark_green())
}

/// Calls `Stylize::dark_yellow` of crossterm on `label` and renders the
/// result. That gives the label between the escape sequences for colour 3
/// and for the default colour; on a Windows console without support for
/// escape sequences it gives the empty string.
#[verifier::external_body]
fn dark_yellow(label: &str) -> (styled: String)
    ensures
        styled@ == spec_colored(label@, "3"@) || styled@.len() == 0,
{
    format!("{}", label.to_string().dark_yellow())
}

/// Calls `Stylize::dark_red` of crossterm on `label` and renders the result.
/// That gives the label between the escape sequences for colour 1 and for
/// the default colour; on a Windows console without support for escape
/// sequences it gives the empty string.
#[verifier::external_body]
fn dark_red(label: &str) -> (styled: String)
    ensures
        styled@ == spec_colored(label@, "1"@) || styled@.len() == 0,
{
    format!("{}", label.to_string().dark_red())
}

/// Builds a line of the log from its tag and its message.
pub fn log_line(tag: &str, message: &str) -> (text: String)
    ensures
        text@ == spec_line(tag@, message@),
{
    let mut text: String = String::from_str("[");
    text.append(tag);
    text.append("] ");
    text.append(message);
    text
}

/// Logs every message at one level.
pub struct Logger {
    log_level: LogLevel,
    debug_enabled: bool,
}

impl Logger {
    /// The level at which `log` logs.
    pub closed spec fn spec_log_level(&self) -> LogLevel {
        self.log_level
    }

    /// Whether messages at the level `Debug` are logged at all.
    pub closed spec fn spec_debug_enabled(&self) -> bool {
        self.debug_enabled
    }

    pub fn new(log_level: LogLevel, debug_enabled: bool) -> (logger: Self)
        ensures
            logger.spec_log_level() == log_level,
            logger.spec_debug_enabled() == debug_enabled,
    {
        Self { log_level, debug_enabled }
    }

    /// Builds the line for `message` at the logger's level. There is none
    /// for a message at the level `Debug` where those are not enabled.
    pub fn log(&self, message: String) -> (text: Option<String>)
        ensures
            text is None <==> self.spec_log_level() == LogLevel::Debug
                && !self.spec_debug_enabled(),
            text matches Some(written) ==> match self.spec_log_level() {
                LogLevel::Debug => spec_is_line(written@, "DEBUG"@, "4"@, message@),
                LogLevel::Info => spec_is_line(written@, "GREEN"@, "2"@, message@),
                LogLevel::Warn => spec_is_line(written@, "WARN"@, "3"@, message@),
                LogLevel::Error => spec_is_line(written@, "ERROR"@, "1"@, message@),
            },
    {
        match self.log_level {
            LogLevel::Debug => self.debug(message),
            LogLevel::Info => Some(self.info(message)),
            LogLevel::Warn => Some(self.warn(message)),
            LogLevel::Error => Some(self.error(message)),
        }
    }

    /// Builds the line for `message` under the tag `DEBUG` in dark blue,
    /// where messages at the level `Debug` are enabled.
    pub fn debug(&self, message: String) -> (text: Option<String>)
        ensures
            text is Some <==> self.spec_debug_enabled(),
            text matches Some(written) ==> spec_is_line(written@, "DEBUG"@, "4"@, message@),
    {
        if self.debug_enabled {
            Some(log_line(dark_blue("DEBUG").as_str(), message.as_str()))
        } else {
            None
        }
    }

    /// Builds the line for `message` under the tag `GREEN` in dark green.
    pub fn info(&self, message: String) -> (text: String)
        ensures
            spec_is_line(text@, "GREEN"@, "2"@, message@),
    {
        log_line(dark_green("GREEN").as_str(), message.as_str())
    }

    /// Builds the line for `message` under the tag `WARN` in dark yellow.
    pub fn warn(&self, message: String) -> (text: String)
        ensures
            spec_is_line(text@, "WARN"@, "3"@, message@),
    {
        log_line(dark_yellow("WARN").as_str(), message.as_str())
    }

    /// Builds the line for `message` under the tag `ERROR` in dark red.
    pub fn error(&self, message: String) -> (text: String)
        ensures
            spec_is_line(text@, "ERROR"@, "1"@, message@),
    {
        log_line(dark_red("ERROR").as_str(), message.as_str())
    }
}

} // verus!

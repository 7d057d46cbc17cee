//! Terminal presentation: ANSI colour codes, coloured text fragments and the
//! levelled message lines the commands print.

use std::io::Write;
use vstd::prelude::*;
use vstd::string::*;

verus! {

/// An ANSI colour selector.
#[derive(Debug, Clone, Copy, PartialEq, Eq, Structural)]
pub enum Color {
    Red,
    Green,
    Yellow,
    Blue,
    Cyan,
    Purple,
    Bold,
    Reset,
}

/// The ANSI escape sequence of a colour.
pub open spec fn spec_color_code(c: Color) -> Seq<char> {
    match c {
        Color::Red => "\x1b[0;31m"@,
        Color::Green => "\x1b[0;32m"@,
        Color::Yellow => "\x1b[1;33m"@,
        Color::Blue => "\x1b[0;34m"@,
        Color::Cyan => "\x1b[0;36m"@,
        Color::Purple => "\x1b[0;35m"@,
        Color::Bold => "\x1b[1m"@,
        Color::Reset => "\x1b[0m"@,
    }
}

impl Color {
    /// The ANSI escape sequence that switches the terminal to this colour.
    pub fn code(self) -> (r: &'static str)
        ensures
            r@ == spec_color_code(self),
    {
        match self {
            Color::Red => "\x1b[0;31m",
            Color::Green => "\x1b[0;32m",
            Color::Yellow => "\x1b[1;33m",
            Color::Blue => "\x1b[0;34m",
            Color::Cyan => "\x1b[0;36m",
            Color::Purple => "\x1b[0;35m",
            Color::Bold => "\x1b[1m",
            Color::Reset => "\x1b[0m",
        }
    }
}

/// A piece of text together with the colour it should be shown in.
#[derive(Debug, Clone)]
pub struct ColoredString {
    pub text: String,
    pub color: Color,
}

impl ColoredString {
    /// Wraps a text in a colour.
    pub fn new(text: String, color: Color) -> (r: ColoredString)
        ensures
            r.text == text,
            r.color == color,
    {
        ColoredString { text, color }
    }

    /// The text as it should be written: wrapped in the colour's escape
    /// sequences when `colored` holds, bare otherwise.
    pub fn render(&self, colored: bool) -> (r: String)
        ensures
            colored ==> r@ == spec_color_code(self.color) + self.text@ + spec_color_code(
                Color::Reset,
            ),
            !colored ==> r@ == self.text@,
    {
        if colored {
            let mut s = self.color.code().to_owned();
            s.append(self.text.as_str());
            s.append(Color::Reset.code());
            s
        } else {
            self.text.clone()
        }
    }
}

/// Red text.
pub fn red(text: String) -> (r: ColoredString)
    ensures
        r.text == text,
        r.color == Color::Red,
{
    ColoredString::new(text, Color::Red)
}

/// Green text.
pub fn green(text: String) -> (r: ColoredString)
    ensures
        r.text == text,
        r.color == Color::Green,
{
    ColoredString::new(text, Color::Green)
}

/// Yellow text.
pub fn yellow(text: String) -> (r: ColoredString)
    ensures
        r.text == text,
        r.color == Color::Yellow,
{
    ColoredString::new(text, Color::Yellow)
}

/// Blue text.
pub fn blue(text: String) -> (r: ColoredString)
    ensures
        r.text == text,
        r.color == Color::Blue,
{
    ColoredString::new(text, Color::Blue)
}

/// Cyan text.
pub fn cyan(text: String) -> (r: ColoredString)
    ensures
        r.text == text,
        r.color == Color::Cyan,
{
    ColoredString::new(text, Color::Cyan)
}

/// Purple text.
pub fn purple(text: String) -> (r: ColoredString)
    ensures
        r.text == text,
        r.color == Color::Purple,
{
    ColoredString::new(text, Color::Purple)
}

/// Bold text.
pub fn bold(text: String) -> (r: ColoredString)
    ensures
        r.text == text,
        r.color == Color::Bold,
{
    ColoredString::new(text, Color::Bold)
}

/// The level of a message line.
#[derive(Debug, Clone, Copy, PartialEq, Eq, Structural)]
pub enum MessageLevel {
    Info,
    Step,
    Success,
    Warning,
    Error,
}

/// The prefix tag of a message level.
pub open spec fn spec_level_prefix(l: MessageLevel) -> Seq<char> {
    match l {
        MessageLevel::Info => "[INFO]"@,
        MessageLevel::Step => "[STEP]"@,
        MessageLevel::Success => "[SUCCESS]"@,
        MessageLevel::Warning => "[WARN]"@,
        MessageLevel::Error => "[ERROR]"@,
    }
}

impl MessageLevel {
    /// The colour a level is shown in.
    pub fn color(self) -> (r: Color)
        ensures
            r == (match self {
                MessageLevel::Info => Color::Blue,
                MessageLevel::Step => Color::Cyan,
                MessageLevel::Success => Color::Green,
                MessageLevel::Warning => Color::Yellow,
                MessageLevel::Error => Color::Red,
            }),
    {
        match self {
            MessageLevel::Info => Color::Blue,
            MessageLevel::Step => Color::Cyan,
            MessageLevel::Success => Color::Green,
            MessageLevel::Warning => Color::Yellow,
            MessageLevel::Error => Color::Red,
        }
    }

    /// The prefix tag written before a message of this level.
    pub fn prefix(self) -> (r: &'static str)
        ensures
            r@ == spec_level_prefix(self),
    {
        match self {
            MessageLevel::Info => "[INFO]",
            MessageLevel::Step => "[STEP]",
            MessageLevel::Success => "[SUCCESS]",
            MessageLevel::Warning => "[WARN]",
            MessageLevel::Error => "[ERROR]",
        }
    }

    /// Whether a level is reported on the error stream rather than on
    /// standard output.
    pub fn on_error_stream(self) -> (r: bool)
        ensures
            r == (self is Warning || self is Error),
    {
        match self {
            MessageLevel::Warning | MessageLevel::Error => true,
            _ => false,
        }
    }
}

/// The full line written for a message: prefix, one space, text.
pub open spec fn spec_message_line(l: MessageLevel, message: Seq<char>) -> Seq<char> {
    spec_level_prefix(l) + " "@ + message
}

/// Builds the line written for a message of the given level.
pub fn format_message(level: MessageLevel, message: &str) -> (r: String)
    ensures
        r@ == spec_message_line(level, message@),
{
    let mut s = level.prefix().to_owned();
    s.append(" ");
    s.append(message);
    s
}

/// Relies on `std::io::Stdout` via the `writeln` macro: writes one line to
/// standard output; the write's own failure is ignored, as a best-effort
/// report to the operator.
#[verifier::external_body]
fn emit_stdout_line(s: &str) {
    let _ = writeln!(std::io::stdout(), "{}", s);
}

/// Relies on `std::io::Stderr` via the `writeln` macro: writes one line to
/// the error stream; the write's own failure is ignored.
#[verifier::external_body]
fn emit_stderr_line(s: &str) {
    let _ = writeln!(std::io::stderr(), "{}", s);
}

/// Writes a message line of the given level on the stream that level uses.
pub fn print_message(level: MessageLevel, message: &str) {
    let line = format_message(level, message);
    if level.on_error_stream() {
        emit_stderr_line(line.as_str());
    } else {
        emit_stdout_line(line.as_str());
    }
}

/// Reports an informational message.
pub fn print_info(message: &str) {
    print_message(MessageLevel::Info, message);
}

/// Reports a step of a longer operation.
pub fn print_step(message: &str) {
    print_message(MessageLevel::Step, message);
}

/// Reports a success.
pub fn print_success(message: &str) {
    print_message(MessageLevel::Success, message);
}

/// Reports a warning on the error stream.
pub fn print_warning(message: &str) {
    print_message(MessageLevel::Warning, message);
}

/// Reports an error on the error stream.
pub fn print_error(message: &str) {
    print_message(MessageLevel::Error, message);
}

/// Writes a separator line, with an optional title between the marks.
pub fn print_separator(title: Option<&str>) {
    match title {
        Some(t) => {
            let mut s = "=== ".to_owned();
            s.append(t);
            s.append(" ===");
            emit_stdout_line(s.as_str());
        },
        None => {
            emit_stdout_line("========================");
        },
    }
}

/// A placeholder manager for richer terminal interaction.
pub struct UiManager {
}

impl UiManager {
    /// Creates the manager.
    pub fn new() -> UiManager {
        UiManager {}
    }
}

} // verus!

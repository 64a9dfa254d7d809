//! The text of a log line.

use vstd::prelude::*;
use vstd::string::StringExecFns;

verus! {

/// The severity of a log record.
#[derive(Clone, Copy, Debug, PartialEq, Eq, Structural)]
pub enum Level {
    Error,
    Warn,
    Info,
    Debug,
    Trace,
}

/// The name under which a severity appears in a log line.
pub open spec fn level_name(level: Level) -> Seq<char> {
    match level {
        Level::Error => seq!['E', 'R', 'R', 'O', 'R'],
        Level::Warn => seq!['W', 'A', 'R', 'N'],
        Level::Info => seq!['I', 'N', 'F', 'O'],
        Level::Debug => seq!['D', 'E', 'B', 'U', 'G'],
        Level::Trace => seq!['T', 'R', 'A', 'C', 'E'],
    }
}

/// A log line: `<timestamp>[<target>][<level>] <message>`.
pub open spec fn record_line(
    timestamp: Seq<char>,
    target: Seq<char>,
    level: Level,
    message: Seq<char>,
) -> Seq<char> {
    timestamp + seq!['['] + target + seq![']', '['] + level_name(level) + seq![']', ' '] + message
}

/// `log::Level::as_str`: trusted to give the upper-case name of the level, as
/// the table of names in the log crate has it.
#[verifier::external_body]
fn level_as_str(level: Level) -> (r: &'static str)
    ensures
        r@ == level_name(level),
{
    let outside = match level {
        Level::Error => log::Level::Error,
        Level::Warn => log::Level::Warn,
        Level::Info => log::Level::Info,
        Level::Debug => log::Level::Debug,
        Level::Trace => log::Level::Trace,
    };
    outside.as_str()
}

/// The format of a timestamp, in the notation of chrono.
pub open spec fn timestamp_format() -> Seq<char> {
    "[%Y-%m-%d][%H:%M:%S]"@
}

/// Whether a character is a decimal digit.
pub open spec fn is_digit(c: char) -> bool {
    '0' as u32 <= c as u32 <= '9' as u32
}

/// Whether two characters, `back` and `back - 1` places before the end of a
/// text, are decimal digits.
pub open spec fn two_digits(text: Seq<char>, back: int) -> bool {
    is_digit(text[text.len() - back]) && is_digit(text[text.len() - back + 1])
}

/// The shape of a timestamp: `[<year>-MM-DD][HH:MM:SS]`, to the second, with
/// a year of four characters or more.
pub open spec fn is_timestamp(text: Seq<char>) -> bool {
    let n = text.len() as int;
    &&& n >= 22
    &&& text[0] == '['
    &&& text[n - 17] == '-'
    &&& two_digits(text, 16)
    &&& text[n - 14] == '-'
    &&& two_digits(text, 13)
    &&& text[n - 11] == ']'
    &&& text[n - 10] == '['
    &&& two_digits(text, 9)
    &&& text[n - 7] == ':'
    &&& two_digits(text, 6)
    &&& text[n - 4] == ':'
    &&& two_digits(text, 3)
    &&& text[n - 1] == ']'
}

/// `chrono::Local::now` formatted by `DateTime::format`. Which time it shows
/// depends on the clock and the time zone. For the format of the library it
/// is trusted to have the shape of a timestamp: the brackets, hyphens and
/// colons are copied from the format, month, day, hour, minute and second are
/// padded to two digits, and the year has at least four characters.
#[verifier::external_body]
fn local_timestamp(format: &str) -> (r: String)
    requires
        format@ == timestamp_format(),
    ensures
        is_timestamp(r@),
{
    chrono::Local::now().format(format).to_string()
}

/// Renders a log line from its four parts.
pub fn render_record(timestamp: &str, target: &str, level: Level, message: &str) -> (line: String)
    ensures
        line@ == record_line(timestamp@, target@, level, message@),
{
    let mut line = String::from_str(timestamp);
    line.append("[");
    line.append(target);
    line.append("][");
    line.append(level_as_str(level));
    line.append("] ");
    line.append(message);
    proof {
        reveal_strlit("[");
        reveal_strlit("][");
        reveal_strlit("] ");
        assert("["@ =~= seq!['[']);
        assert("]["@ =~= seq![']', '[']);
        assert("] "@ =~= seq![']', ' ']);
    }
    line
}

/// Renders a log line stamped with the local time of the call: a timestamp
/// of the shape `[<year>-MM-DD][HH:MM:SS]`, followed by exactly
/// `[<target>][<level>] <message>`.
pub fn render_record_now(target: &str, level: Level, message: &str) -> (line: String)
    ensures
        exists|timestamp: Seq<char>|
            is_timestamp(timestamp) && line@ == #[trigger] record_line(
                timestamp,
                target@,
                level,
                message@,
            ),
{
    let timestamp = local_timestamp("[%Y-%m-%d][%H:%M:%S]");
    render_record(timestamp.as_str(), target, level, message)
}

} // verus!

//! The log buffer the shell shows in its log window.
//!
//! The buffer is a value that its user owns and hands to whoever logs:
//! there is no process-wide state. Every entry is one line, the time of
//! day in brackets followed by the message.

use vstd::prelude::*;
use vstd::string::StringExecFns;

verus! {

/// The text of all entries since the last clear.
pub struct LogBuffer {
    text: String,
}

impl View for LogBuffer {
    type V = Seq<char>;

    closed spec fn view(&self) -> Seq<char> {
        self.text@
    }
}

/// One log line: the stamp in brackets, a space, the message, a line feed.
pub open spec fn log_line(stamp: Seq<char>, message: Seq<char>) -> Seq<char> {
    "["@ + stamp + "] "@ + message + "\n"@
}

/// The buffer grew by exactly one line for `message`, whatever its stamp.
pub open spec fn logged(before: Seq<char>, after: Seq<char>, message: Seq<char>) -> bool {
    exists|stamp: Seq<char>| after == before + #[trigger] log_line(stamp, message)
}

/// The buffer grew by exactly two lines, one for `first` and then one for
/// `second`, whatever their stamps.
pub open spec fn logged_two(
    before: Seq<char>,
    after: Seq<char>,
    first: Seq<char>,
    second: Seq<char>,
) -> bool {
    exists|between: Seq<char>|
        #[trigger] logged(before, between, first) && logged(between, after, second)
}

/// Calls `chrono::Utc::now` and formats the moment as hours, minutes,
/// seconds and nanoseconds (`%H:%M:%S.%f`). The result depends on the clock,
/// so nothing is claimed of it.
#[verifier::external_body]
fn time_of_day() -> (stamp: String) {
    chrono::Utc::now().format("%H:%M:%S.%f").to_string()
}

impl LogBuffer {
    /// An empty buffer.
    pub fn new() -> (buffer: LogBuffer)
        ensures
            buffer@ == Seq::<char>::empty(),
    {
        LogBuffer { text: String::new() }
    }

    /// Appends the line for `message` stamped with `stamp`, and returns it.
    pub fn push_entry(&mut self, stamp: &str, message: &str) -> (line: String)
        ensures
            line@ == log_line(stamp@, message@),
            final(self)@ == old(self)@ + log_line(stamp@, message@),
    {
        let mut line = String::from_str("[");
        line.append(stamp);
        line.append("] ");
        line.append(message);
        line.append("\n");
        self.text.append(line.as_str());
        line
    }
}

/// Appends a line for `message`, stamped with the current time of day, and
/// returns the line. Whatever the clock says, the buffer grows by exactly
/// that one line, which ends with the message and a line feed.
pub fn add_log(buffer: &mut LogBuffer, message: &str) -> (line: String)
    ensures
        final(buffer)@ == old(buffer)@ + line@,
        exists|stamp: Seq<char>| line@ == log_line(stamp, message@),
        logged(old(buffer)@, final(buffer)@, message@),
{
    let stamp = time_of_day();
    let line = buffer.push_entry(stamp.as_str(), message);
    assert(line@ == log_line(stamp@, message@));
    line
}

/// The text of all entries since the last clear.
pub fn get_log(buffer: &LogBuffer) -> (text: String)
    ensures
        text@ == buffer@,
{
    buffer.text.clone()
}

/// Empties the buffer.
pub fn clear_log(buffer: &mut LogBuffer)
    ensures
        final(buffer)@ == Seq::<char>::empty(),
{
    buffer.text = String::new();
}

} // verus!

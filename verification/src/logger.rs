//! The lines of the log. A line is made here from the time, the thread and
//! the message as texts; reading the clock and printing are the caller's.

use vstd::prelude::*;
use vstd::string::*;
use crate::text::{pad_right, padded_text};

verus! {

/// A line of the log: the time in square brackets, the kind of line in a
/// column of five characters, the thread and the message.
pub open spec fn log_line(typ: Seq<char>, time: Seq<char>, thread: Seq<char>, msg: Seq<char>) -> Seq<
    char,
> {
    seq!['['] + time + seq![']', ' '] + padded_text(typ, 5) + seq![' ', '|', ' '] + thread + seq![
        ' ',
        '|',
        ' ',
    ] + msg
}

/// Makes a line of the log of the given kind.
pub fn log(typ: &str, time: &str, thread: &str, msg: &str) -> (line: String)
    ensures
        line@ == log_line(typ@, time@, thread@, msg@),
{
    proof {
        reveal_strlit("[");
        reveal_strlit("] ");
        reveal_strlit(" | ");
    }
    let column = pad_right(typ, 5);
    let mut line = String::from_str("[");
    line.append(time);
    line.append("] ");
    line.append(column.as_str());
    line.append(" | ");
    line.append(thread);
    line.append(" | ");
    line.append(msg);
    assert(line@ =~= log_line(typ@, time@, thread@, msg@));
    line
}

/// A line that reports ordinary progress.
pub fn info(time: &str, thread: &str, msg: &str) -> (line: String)
    ensures
        line@ == log_line("INFO"@, time@, thread@, msg@),
{
    log("INFO", time, thread, msg)
}

/// A line that reports something unusual.
pub fn warn(time: &str, thread: &str, msg: &str) -> (line: String)
    ensures
        line@ == log_line("WARN"@, time@, thread@, msg@),
{
    log("WARN", time, thread, msg)
}

/// A line that reports a failure.
pub fn error(time: &str, thread: &str, msg: &str) -> (line: String)
    ensures
        line@ == log_line("ERROR"@, time@, thread@, msg@),
{
    log("ERROR", time, thread, msg)
}

/// A line for the developer.
pub fn debug(time: &str, thread: &str, msg: &str) -> (line: String)
    ensures
        line@ == log_line("DEBUG"@, time@, thread@, msg@),
{
    log("DEBUG", time, thread, msg)
}

} // verus!

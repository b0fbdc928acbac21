//! Command dispatch: telling buffer-management meta-commands apart from
//! ordinary statement lines.

use vstd::prelude::*;

verus! {

/// A buffer-management meta-command, recognized by its leading `:` marker.
#[derive(Clone, Copy, Debug, PartialEq, Eq, Structural)]
pub enum Command {
    /// Print the buffer's statements.
    ShowBuffer,
    /// Empty the buffer unconditionally.
    Clear,
    /// End the session normally.
    Exit,
    /// Print the list of recognized commands.
    Help,
    /// Remove the most recently committed statement, if any.
    Pop,
    /// A line that carries the command marker but matches no command.
    Unknown,
}

/// A line is a meta-command exactly when it begins with the command marker
/// `:`; every other line is an ordinary statement.
pub open spec fn is_meta(line: Seq<char>) -> bool {
    line.len() > 0 && line[0] == ':'
}

/// The command denoted by a meta-command line.
pub open spec fn command_of(line: Seq<char>) -> Command {
    if line == ":buffer"@ {
        Command::ShowBuffer
    } else if line == ":clear"@ {
        Command::Clear
    } else if line == ":exit"@ {
        Command::Exit
    } else if line == ":h"@ || line == ":help"@ {
        Command::Help
    } else if line == ":pop"@ {
        Command::Pop
    } else {
        Command::Unknown
    }
}

/// True exactly when the line reads the same as the given literal.
fn line_is(line: &String, lit: &str) -> (b: bool)
    ensures
        b == (line@ == lit@),
{
    let other = String::from_str(lit);
    line.eq(&other)
}

/// Classifies one input line: `Some` command for a meta-command line, `None`
/// for an ordinary statement line.
pub fn classify(line: &String) -> (c: Option<Command>)
    ensures
        is_meta(line@) ==> c == Some(command_of(line@)),
        !is_meta(line@) ==> c is None,
{
    let s = line.as_str();
    if s.unicode_len() == 0 {
        return None;
    }
    if s.get_char(0) != ':' {
        return None;
    }
    if line_is(line, ":buffer") {
        Some(Command::ShowBuffer)
    } else if line_is(line, ":clear") {
        Some(Command::Clear)
    } else if line_is(line, ":exit") {
        Some(Command::Exit)
    } else if line_is(line, ":h") || line_is(line, ":help") {
        Some(Command::Help)
    } else if line_is(line, ":pop") {
        Some(Command::Pop)
    } else {
        Some(Command::Unknown)
    }
}

} // verus!

//! The commands that the module takes from the command line.

use crate::text::text_eq;
use vstd::prelude::*;
use vstd::string::StringExecFns;

verus! {

/// A command of the power module.
#[derive(Debug, Clone, Copy, PartialEq, Eq, Structural)]
pub enum CliCommand {
    /// List the batteries that the bus knows.
    List,
    /// Show the help text.
    Help,
}

/// The first word of a command line: what stands before the first space.
pub open spec fn first_word(line: Seq<char>) -> Seq<char>
    decreases line.len(),
{
    if line.len() == 0 || line[0] == ' ' {
        Seq::empty()
    } else {
        seq![line[0]] + first_word(line.drop_first())
    }
}

/// The command that a command line asks for. Only the first word counts;
/// any word other than `list` and `help` is unknown.
pub open spec fn command_of(line: Seq<char>) -> Option<CliCommand> {
    if first_word(line) == "list"@ {
        Some(CliCommand::List)
    } else if first_word(line) == "help"@ {
        Some(CliCommand::Help)
    } else {
        None
    }
}

/// The first word of `line` ends where `line` does or at its first space.
proof fn lemma_first_word(line: Seq<char>, end: int)
    requires
        0 <= end <= line.len(),
        forall|i: int| 0 <= i < end ==> line[i] != ' ',
        end == line.len() || line[end] == ' ',
    ensures
        first_word(line) == line.take(end),
    decreases end,
{
    if end == 0 {
        assert(line.take(0) =~= Seq::<char>::empty());
    } else {
        let rest = line.drop_first();
        assert forall|i: int| 0 <= i < end - 1 implies rest[i] != ' ' by {
            assert(rest[i] == line[i + 1]);
        }
        lemma_first_word(rest, end - 1);
        assert(line.take(end) =~= seq![line[0]] + rest.take(end - 1));
    }
}

/// The help text of the module.
pub fn help_text() -> (text: &'static str)
    ensures
        text@ == "Commands: \n    list: list the available batteries"@,
{
    "Commands: \n    list: list the available batteries"
}

/// Reads a command line. An unknown command is answered with a message that
/// repeats the whole line.
pub fn cli_command(line: &str) -> (command: Result<CliCommand, String>)
    ensures
        match command_of(line@) {
            Some(known) => command == Ok::<CliCommand, String>(known),
            None => command matches Err(message) && message@ == "Unknown command: "@ + line@,
        },
{
    let len = line.unicode_len();
    let mut end: usize = 0;
    while end < len
        invariant
            end <= len,
            len == line@.len(),
            forall|i: int| 0 <= i < end ==> line@[i] != ' ',
        ensures
            end <= len,
            forall|i: int| 0 <= i < end ==> line@[i] != ' ',
            end == len || line@[end as int] == ' ',
        decreases len - end,
    {
        if line.get_char(end) == ' ' {
            break ;
        }
        end += 1;
    }
    proof {
        lemma_first_word(line@, end as int);
    }
    let word = line.substring_char(0, end);
    assert(word@ =~= line@.take(end as int));
    if text_eq(word, "list") {
        Ok(CliCommand::List)
    } else if text_eq(word, "help") {
        Ok(CliCommand::Help)
    } else {
        Err("Unknown command: ".to_owned().concat(line))
    }
}

} // verus!

//! The command dispatcher: reads the single input line apart and renders
//! the status message the tool prints for it.

use vstd::prelude::*;
use vstd::string::StrSliceExecFns;
use vstd::string::StringExecFns;
use crate::text::{has_prefix, trim, trimmed};

verus! {

/// The literal command word the dispatcher recognises.
pub open spec fn cmd_prefix() -> Seq<char> {
    "create-yew-app"@
}

/// The command word followed by the space that separates the name.
pub open spec fn cmd_prefix_space() -> Seq<char> {
    "create-yew-app "@
}

/// What the tool decides to do with one input line.
pub enum Command {
    /// The line does not start with the command word; the trimmed line is
    /// kept for the message.
    Unknown(String),
    /// The command word appeared, but no non-empty application name
    /// followed it.
    MissingName,
    /// A project with the given application name is to be created.
    Create(String),
}

/// How a parsed `Command` relates to the raw input line: trim the line,
/// test the command word, and take the trimmed remainder as the name.
pub open spec fn command_matches(c: Command, raw: Seq<char>) -> bool {
    let t = trimmed(raw);
    if !cmd_prefix().is_prefix_of(t) {
        c matches Command::Unknown(s) && s@ == t
    } else if !cmd_prefix_space().is_prefix_of(t) {
        c matches Command::MissingName
    } else {
        let name = trimmed(t.skip(cmd_prefix_space().len() as int));
        if name.len() == 0 {
            c matches Command::MissingName
        } else {
            c matches Command::Create(s) && s@ == name
        }
    }
}

/// Decide what one raw input line asks for.
pub fn parse_command(raw: &str) -> (c: Command)
    ensures
        command_matches(c, raw@),
{
    let t = trim(raw);
    if !has_prefix(t, "create-yew-app") {
        Command::Unknown(String::from_str(t))
    } else if !has_prefix(t, "create-yew-app ") {
        Command::MissingName
    } else {
        proof {
            reveal_strlit("create-yew-app ");
        }
        let n = t.unicode_len();
        let rest = t.substring_char(15, n);
        proof {
            assert(rest@ =~= t@.skip(cmd_prefix_space().len() as int));
        }
        let name = trim(rest);
        if name.unicode_len() == 0 {
            Command::MissingName
        } else {
            Command::Create(String::from_str(name))
        }
    }
}

/// The message printed when the line is not a recognised command.
pub open spec fn unknown_text() -> Seq<char> {
    "Unknown command: "@
}

/// The message printed when the command word has no name after it.
pub open spec fn usage_text() -> Seq<char> {
    "Error: No app name provided. Usage: create-yew-app <app-name>"@
}

/// The message printed before a project is created.
pub open spec fn creating_text() -> Seq<char> {
    "Creating Yew app named: "@
}

/// The one status line the tool prints for a parsed command.
pub open spec fn message_of(c: Command) -> Seq<char> {
    match c {
        Command::Unknown(s) => unknown_text() + s@,
        Command::MissingName => usage_text(),
        Command::Create(s) => creating_text() + s@,
    }
}

impl Command {
    /// Render the status line for this command.
    pub fn message(&self) -> (m: String)
        ensures
            m@ == message_of(*self),
    {
        match self {
            Command::Unknown(s) => String::from_str("Unknown command: ").concat(s.as_str()),
            Command::MissingName => String::from_str(
                "Error: No app name provided. Usage: create-yew-app <app-name>",
            ),
            Command::Create(s) => String::from_str("Creating Yew app named: ").concat(s.as_str()),
        }
    }
}

} // verus!

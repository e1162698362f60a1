//! The text modifications that the command-line tool offers, by name.
use vstd::prelude::*;
use crate::text::to_owned;

verus! {

/// A modification of text.
#[derive(Debug, Clone, Copy, PartialEq, Eq, Structural)]
pub enum Command {
    LowerCase,
    UpperCase,
    Slugify,
    NoSpaces,
    AleIronicky,
    Reverse,
    Csv,
}

/// The name is not one of a command.
#[derive(Debug, Clone, Copy, PartialEq, Eq, Structural)]
pub struct ParseCommandError;

/// The command that each name stands for.
pub open spec fn command_named(s: Seq<char>) -> Option<Command> {
    if s == "lowercase"@ {
        Some(Command::LowerCase)
    } else if s == "uppercase"@ {
        Some(Command::UpperCase)
    } else if s == "slugify"@ {
        Some(Command::Slugify)
    } else if s == "no-space"@ {
        Some(Command::NoSpaces)
    } else if s == "ale-ironicky"@ {
        Some(Command::AleIronicky)
    } else if s == "reverse"@ {
        Some(Command::Reverse)
    } else if s == "csv"@ {
        Some(Command::Csv)
    } else {
        None
    }
}

impl Command {
    /// The command named `s`.
    pub fn from_str(s: &str) -> (r: Result<Command, ParseCommandError>)
        ensures
            r == (match command_named(s@) {
                Some(c) => Ok(c),
                None => Err(ParseCommandError),
            }),
    {
        let s = to_owned(s);
        if s == to_owned("lowercase") {
            Ok(Command::LowerCase)
        } else if s == to_owned("uppercase") {
            Ok(Command::UpperCase)
        } else if s == to_owned("slugify") {
            Ok(Command::Slugify)
        } else if s == to_owned("no-space") {
            Ok(Command::NoSpaces)
        } else if s == to_owned("ale-ironicky") {
            Ok(Command::AleIronicky)
        } else if s == to_owned("reverse") {
            Ok(Command::Reverse)
        } else if s == to_owned("csv") {
            Ok(Command::Csv)
        } else {
            Err(ParseCommandError)
        }
    }
}

} // verus!

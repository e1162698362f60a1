//! Reading a command name typed by the user.
use vstd::prelude::*;
use crate::command::{Command, command_named};

verus! {

/// The typed name is not one of a command.
#[derive(Debug, Clone, Copy, PartialEq, Eq, Structural)]
pub struct InvalidCommand;

impl InvalidCommand {
    /// The refusal of a command name.
    pub fn build_err<T>() -> (r: Result<T, InvalidCommand>)
        ensures
            r == Err::<T, InvalidCommand>(InvalidCommand),
    {
        Err(InvalidCommand)
    }

    /// How the refusal shows: it shows as nothing.
    pub fn to_string(&self) -> (r: String)
        ensures
            r@ == Seq::<char>::empty(),
    {
        String::new()
    }
}

/// The command that `str_cmd` names, or the refusal.
pub fn parse_command(str_cmd: String) -> (r: Result<Command, InvalidCommand>)
    ensures
        r == (match command_named(str_cmd@) {
            Some(c) => Ok(c),
            None => Err(InvalidCommand),
        }),
{
    if let Ok(i) = Command::from_str(str_cmd.as_str()) {
        Ok(i)
    } else {
        InvalidCommand::build_err()
    }
}

} // verus!

//! The interactive mode of the command-line tool: each line names a command, then the text.
use vstd::prelude::*;
use crate::text::{split_space_spec, split_first_space};

verus! {

/// A typed line split into the command name (up to the first space) and the text (after
/// it, or nothing when the line has no space).
pub fn split_command_line(line: &str) -> (r: (String, String))
    ensures
        r.0@ == split_space_spec(line@).0,
        r.1@ == match split_space_spec(line@).1 {
            Some(rest) => rest,
            None => Seq::empty(),
        },
{
    let (c, i) = split_first_space(line);
    let i = match i {
        Some(rest) => rest,
        None => String::new(),
    };
    (c, i)
}

} // verus!

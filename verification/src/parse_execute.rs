//! Reading a command name; the same reading as `parse_command`.
pub use crate::parse_command::{parse_command, InvalidCommand};

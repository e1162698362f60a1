//! A chat message as the web front end shows it and the database stores it.
use vstd::prelude::*;

verus! {

/// A chat message: who wrote it, what it says, whether its author was deleted, and when it
/// was written.
#[derive(Debug, Clone)]
pub struct Message {
    pub username: String,
    pub message: String,
    pub deleted: bool,
    pub date: String,
}

} // verus!

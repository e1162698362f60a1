//! The decisions of the chat server and of its database task.
pub mod accept;
pub mod auth;
pub mod db;
pub mod registry;
pub mod web_link;

use vstd::prelude::*;

verus! {

/// The command line of the chat server.
#[derive(Debug, Clone)]
pub struct Args {
    pub host: String,
    pub port: String,
}

impl Args {
    /// The host and port, in that order.
    pub fn deconstruct(self) -> (r: (String, String))
        ensures
            r == (self.host, self.port),
    {
        (self.host, self.port)
    }
}

} // verus!

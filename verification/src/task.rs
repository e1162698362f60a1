//! The requests and answers exchanged between the web front end and the database server.
use vstd::prelude::*;
use crate::logging_in::{LoginAttempt, LoginResult};
use crate::message::Message;

verus! {

/// A request to the database server, or its answer.
#[derive(Debug, Clone)]
pub enum Task {
    Message(Message),
    User(LoginDirection),
    History(TaskDirection<Message>),
    Mannschaft(TaskDirection<String>),
    Delete(String),
}

/// A request for a list, or the list that answers it.
#[derive(Debug, Clone)]
pub enum TaskDirection<T> {
    Request,
    Response(Vec<T>),
}

/// A login attempt, or the verdict on it.
#[derive(Debug, Clone)]
pub enum LoginDirection {
    Request(LoginAttempt),
    Response(LoginResult),
}

/// What the web front end pushes to the pages that listen for events.
#[derive(Debug, Clone)]
pub enum ServerTask {
    Message(Message),
    Deletion,
}

} // verus!

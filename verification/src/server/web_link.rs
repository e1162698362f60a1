//! The decisions of the server's link to the web front end: each request that the front end
//! sends goes on to the database task, and the answers that it waits for come back.
use vstd::prelude::*;
use crate::error::ChatError;
use crate::server::db::awaits_reply;
use crate::task::{LoginDirection, Task, TaskDirection};

verus! {

/// What the link to the web front end got in one round.
#[derive(Debug)]
pub enum WebLinkEvent {
    /// The four bytes that give a frame's length could not be read.
    HeaderUnread,
    /// The frame's read gave no bytes.
    NothingRead,
    /// A frame was read: the request it holds, or `None` when it held none.
    Frame(Option<Task>),
    /// Reading the frame failed.
    BodyUnread,
    /// Handing a request on to the database task failed.
    ForwardFailed,
    /// The database task's answer to a request that waits for one, or `None` when none came.
    Answer(Option<Task>),
}

/// What the link does next.
#[derive(Debug)]
pub enum WebLinkAction {
    /// Read the next frame.
    Continue,
    /// Hand the request on to the database task, then wait for its answer when
    /// `await_answer` holds.
    Forward { task: Task, await_answer: bool },
    /// Send the database task's answer to the web front end.
    SendBack(Task),
    /// Stop serving the front end, with this error.
    Stop(ChatError),
}

/// One round of the link to the web front end (the decisions of `web_task`): a length that
/// could not be read stops it with `ReadingIssue`, a failed read with `OtherEndIssue`, a
/// frame that holds no request with `DeserializingIssue` and a request that could not be
/// handed on with `DatabaseIssue`; an empty read is passed over; a request is handed on, to
/// wait for the answer of a history or login request (see `awaits_reply`); an answer is sent
/// back, and a missing one passed over.
pub fn web_link_step(event: WebLinkEvent) -> (r: WebLinkAction)
    ensures
        r == (match event {
            WebLinkEvent::HeaderUnread => WebLinkAction::Stop(ChatError::ReadingIssue),
            WebLinkEvent::NothingRead => WebLinkAction::Continue,
            WebLinkEvent::Frame(None) => WebLinkAction::Stop(ChatError::DeserializingIssue),
            WebLinkEvent::Frame(Some(t)) => WebLinkAction::Forward {
                task: t,
                await_answer: (t matches Task::History(TaskDirection::Request) || t matches Task::User(LoginDirection::Request(_))),
            },
            WebLinkEvent::BodyUnread => WebLinkAction::Stop(ChatError::OtherEndIssue),
            WebLinkEvent::ForwardFailed => WebLinkAction::Stop(ChatError::DatabaseIssue),
            WebLinkEvent::Answer(Some(h)) => WebLinkAction::SendBack(h),
            WebLinkEvent::Answer(None) => WebLinkAction::Continue,
        }),
{
    match event {
        WebLinkEvent::HeaderUnread => WebLinkAction::Stop(ChatError::ReadingIssue),
        WebLinkEvent::NothingRead => WebLinkAction::Continue,
        WebLinkEvent::Frame(None) => WebLinkAction::Stop(ChatError::DeserializingIssue),
        WebLinkEvent::Frame(Some(t)) => {
            let await_answer = awaits_reply(&t);
            WebLinkAction::Forward { task: t, await_answer }
        },
        WebLinkEvent::BodyUnread => WebLinkAction::Stop(ChatError::OtherEndIssue),
        WebLinkEvent::ForwardFailed => WebLinkAction::Stop(ChatError::DatabaseIssue),
        WebLinkEvent::Answer(Some(h)) => WebLinkAction::SendBack(h),
        WebLinkEvent::Answer(None) => WebLinkAction::Continue,
    }
}

} // verus!

//! Accepting a chat client: read its login, check it against the database, then welcome
//! the client with the chat history.
use vstd::prelude::*;
use crate::chat::{Message as ChatMessage, MessageType};
use crate::error::ChatError;
use crate::text::{to_owned, join};

verus! {

/// How far the server is in accepting the client at hand.
#[derive(Debug)]
pub enum AcceptState {
    /// Waiting for a client's login.
    AwaitLogin,
    /// The login of `nick` is being checked.
    AwaitVerdict { nick: String },
    /// `nick` was let in (`returning` if the account existed before); the history is
    /// being fetched.
    AwaitHistory { nick: String, returning: bool },
}

/// What happened since the last step.
#[derive(Debug)]
pub enum AcceptEvent {
    /// No client could be accepted.
    ConnectionFailed,
    /// The length header of the client's login could not be read.
    HeaderUnread,
    /// Nothing could be read from the client after the header.
    LoginUnread,
    /// The client sent bytes that are no message.
    LoginUndecodable,
    /// The client sent its login: its nickname, and its password as a text message.
    Login(ChatMessage),
    /// The database's verdict on the login: the account and whether it existed before.
    Verdict(Result<(i32, bool), ChatError>),
    /// The chat history, as text.
    History(String),
    /// The welcomed client's connection could not be handed to the tasks that broadcast
    /// and listen.
    HandOverFailed,
}

/// What the server does next.
#[derive(Debug)]
pub enum AcceptAction {
    /// Leave this client and wait for the next one.
    Skip,
    /// Send the client the refusal (`refusal()`), then wait for the next one.
    Refuse,
    /// Check the login of `nick` with password `pass` against the database.
    CheckLogin { nick: String, pass: String },
    /// Send the client the acceptance (`acceptance()`), then fetch the history.
    AcceptAndFetchHistory,
    /// Send the client `greeting` from the system, then hand the client's connection to
    /// the tasks that broadcast and listen, under `nick`.
    Welcome { greeting: String, nick: String },
    /// Stop accepting clients, with this error.
    Stop(ChatError),
    /// The event does not belong to this step; nothing to do.
    Ignore,
}

pub enum AcceptStateView {
    AwaitLogin,
    AwaitVerdict(Seq<char>),
    AwaitHistory(Seq<char>, bool),
}

pub enum AcceptEventView {
    ConnectionFailed,
    HeaderUnread,
    LoginUnread,
    LoginUndecodable,
    /// A login: the nickname and the text of the content (see `password_spec`).
    Login(Seq<char>, Seq<char>),
    Verdict(Result<(i32, bool), ChatError>),
    History(Seq<char>),
    HandOverFailed,
}

pub enum AcceptActionView {
    Skip,
    Refuse,
    CheckLogin(Seq<char>, Seq<char>),
    AcceptAndFetchHistory,
    Welcome(Seq<char>, Seq<char>),
    Stop(ChatError),
    Ignore,
}

/// The password that a login message carries: the text of a text message; any other
/// content carries the empty password.
pub open spec fn password_spec(content: MessageType) -> Seq<char> {
    match content {
        MessageType::Text(t) => t@,
        _ => Seq::empty(),
    }
}

impl View for AcceptState {
    type V = AcceptStateView;

    open spec fn view(&self) -> AcceptStateView {
        match self {
            AcceptState::AwaitLogin => AcceptStateView::AwaitLogin,
            AcceptState::AwaitVerdict { nick } => AcceptStateView::AwaitVerdict(nick@),
            AcceptState::AwaitHistory { nick, returning } => AcceptStateView::AwaitHistory(nick@, *returning),
        }
    }
}

impl View for AcceptEvent {
    type V = AcceptEventView;

    open spec fn view(&self) -> AcceptEventView {
        match self {
            AcceptEvent::ConnectionFailed => AcceptEventView::ConnectionFailed,
            AcceptEvent::HeaderUnread => AcceptEventView::HeaderUnread,
            AcceptEvent::LoginUnread => AcceptEventView::LoginUnread,
            AcceptEvent::LoginUndecodable => AcceptEventView::LoginUndecodable,
            AcceptEvent::Login(m) => AcceptEventView::Login(m.nick@, password_spec(m.content)),
            AcceptEvent::Verdict(v) => AcceptEventView::Verdict(*v),
            AcceptEvent::History(h) => AcceptEventView::History(h@),
            AcceptEvent::HandOverFailed => AcceptEventView::HandOverFailed,
        }
    }
}

impl View for AcceptAction {
    type V = AcceptActionView;

    open spec fn view(&self) -> AcceptActionView {
        match self {
            AcceptAction::Skip => AcceptActionView::Skip,
            AcceptAction::Refuse => AcceptActionView::Refuse,
            AcceptAction::CheckLogin { nick, pass } => AcceptActionView::CheckLogin(nick@, pass@),
            AcceptAction::AcceptAndFetchHistory => AcceptActionView::AcceptAndFetchHistory,
            AcceptAction::Welcome { greeting, nick } => AcceptActionView::Welcome(greeting@, nick@),
            AcceptAction::Stop(e) => AcceptActionView::Stop(*e),
            AcceptAction::Ignore => AcceptActionView::Ignore,
        }
    }
}

/// The greeting of a client: the history, then a line that welcomes the client (back, if
/// the account existed before) by nickname.
pub open spec fn greeting_spec(history: Seq<char>, returning: bool, nick: Seq<char>) -> Seq<char> {
    history + "\nwelcome"@ + (if returning { " back"@ } else { Seq::empty() }) + ", "@ + nick
}

/// One step of accepting a client.
pub open spec fn accept_transition(s: AcceptStateView, e: AcceptEventView) -> (AcceptStateView, AcceptActionView) {
    match (s, e) {
        (AcceptStateView::AwaitLogin, AcceptEventView::ConnectionFailed) => (
            AcceptStateView::AwaitLogin,
            AcceptActionView::Stop(ChatError::AcceptanceIssue),
        ),
        (AcceptStateView::AwaitLogin, AcceptEventView::HeaderUnread) => (
            AcceptStateView::AwaitLogin,
            AcceptActionView::Stop(ChatError::ReadingIssue),
        ),
        (AcceptStateView::AwaitLogin, AcceptEventView::HandOverFailed) => (
            AcceptStateView::AwaitLogin,
            AcceptActionView::Stop(ChatError::AccomodationIssue),
        ),
        (AcceptStateView::AwaitLogin, AcceptEventView::LoginUnread) => (AcceptStateView::AwaitLogin, AcceptActionView::Skip),
        (AcceptStateView::AwaitLogin, AcceptEventView::LoginUndecodable) => (AcceptStateView::AwaitLogin, AcceptActionView::Refuse),
        (AcceptStateView::AwaitLogin, AcceptEventView::Login(nick, pass)) => (
            AcceptStateView::AwaitVerdict(nick),
            AcceptActionView::CheckLogin(nick, pass),
        ),
        (AcceptStateView::AwaitVerdict(_), AcceptEventView::Verdict(Err(_))) => (AcceptStateView::AwaitLogin, AcceptActionView::Refuse),
        (AcceptStateView::AwaitVerdict(nick), AcceptEventView::Verdict(Ok((_, returning)))) => (
            AcceptStateView::AwaitHistory(nick, returning),
            AcceptActionView::AcceptAndFetchHistory,
        ),
        (AcceptStateView::AwaitHistory(nick, returning), AcceptEventView::History(h)) => (
            AcceptStateView::AwaitLogin,
            AcceptActionView::Welcome(greeting_spec(h, returning, nick), nick),
        ),
        (s, _) => (s, AcceptActionView::Ignore),
    }
}

/// The password that a login message carries (see `password_spec`).
pub fn password_of(content: MessageType) -> (r: String)
    ensures
        r@ == password_spec(content),
{
    match content {
        MessageType::Text(t) => t,
        _ => String::new(),
    }
}

/// The greeting of a client (see `greeting_spec`).
pub fn greeting(history: &str, returning: bool, nick: &str) -> (r: String)
    ensures
        r@ == greeting_spec(history@, returning, nick@),
{
    let mut g = join(history, "\nwelcome");
    if returning {
        g.append(" back");
    }
    g.append(", ");
    g.append(nick);
    proof {
        if !returning {
            assert(history@ + "\nwelcome"@ + Seq::<char>::empty() =~= history@ + "\nwelcome"@);
        }
    }
    g
}

/// A text message from the system.
pub fn system_message(text: &str) -> (m: ChatMessage)
    ensures
        m.nick@ == "system"@,
        m.content matches MessageType::Text(t) && t@ == text@,
{
    ChatMessage { content: MessageType::Text(to_owned(text)), nick: to_owned("system") }
}

/// The message that refuses a login.
pub fn refusal() -> (m: ChatMessage)
    ensures
        m.nick@ == "system"@,
        m.content matches MessageType::Text(t) && t@ == ".refuse"@,
{
    system_message(".refuse")
}

/// The message that accepts a login.
pub fn acceptance() -> (m: ChatMessage)
    ensures
        m.nick@ == "system"@,
        m.content matches MessageType::Text(t) && t@ == ".accept"@,
{
    system_message(".accept")
}

/// One step of accepting a client: from where the server stands and what happened, where
/// it stands next and what it does.
pub fn accepting_step(state: AcceptState, event: AcceptEvent) -> (r: (AcceptState, AcceptAction))
    ensures
        (r.0@, r.1@) == accept_transition(state@, event@),
{
    match (state, event) {
        (AcceptState::AwaitLogin, AcceptEvent::ConnectionFailed) => (AcceptState::AwaitLogin, AcceptAction::Stop(ChatError::AcceptanceIssue)),
        (AcceptState::AwaitLogin, AcceptEvent::HeaderUnread) => (AcceptState::AwaitLogin, AcceptAction::Stop(ChatError::ReadingIssue)),
        (AcceptState::AwaitLogin, AcceptEvent::HandOverFailed) => (AcceptState::AwaitLogin, AcceptAction::Stop(ChatError::AccomodationIssue)),
        (AcceptState::AwaitLogin, AcceptEvent::LoginUnread) => (AcceptState::AwaitLogin, AcceptAction::Skip),
        (AcceptState::AwaitLogin, AcceptEvent::LoginUndecodable) => (AcceptState::AwaitLogin, AcceptAction::Refuse),
        (AcceptState::AwaitLogin, AcceptEvent::Login(m)) => {
            let nick = m.nick;
            let pass = password_of(m.content);
            (AcceptState::AwaitVerdict { nick: nick.clone() }, AcceptAction::CheckLogin { nick, pass })
        },
        (AcceptState::AwaitVerdict { nick }, AcceptEvent::Verdict(v)) => match v {
            Err(_) => (AcceptState::AwaitLogin, AcceptAction::Refuse),
            Ok((_, returning)) => (AcceptState::AwaitHistory { nick, returning }, AcceptAction::AcceptAndFetchHistory),
        },
        (AcceptState::AwaitHistory { nick, returning }, AcceptEvent::History(h)) => {
            let greeting = greeting(h.as_str(), returning, nick.as_str());
            (AcceptState::AwaitLogin, AcceptAction::Welcome { greeting, nick })
        },
        (s, _) => (s, AcceptAction::Ignore),
    }
}

/// A client is welcomed only from the step that fetched the history, and that step is
/// reached only by a verdict that let the client in, under the nickname of its login; a
/// refused login leads back to waiting for the next client; accepting stops only while
/// waiting for a login.
pub proof fn law_welcome_only_after_admission(s: AcceptStateView, e: AcceptEventView)
    ensures
        accept_transition(s, e).1 is Welcome ==> s is AwaitHistory,
        accept_transition(s, e).0 is AwaitHistory ==> (s is AwaitHistory && accept_transition(s, e).1 is Ignore) || (
            s matches AcceptStateView::AwaitVerdict(nick) && e matches AcceptEventView::Verdict(Ok(_))
            && accept_transition(s, e).0->AwaitHistory_0 == nick),
        (s is AwaitVerdict && e matches AcceptEventView::Verdict(Err(_))) ==> accept_transition(s, e) == (
            AcceptStateView::AwaitLogin,
            AcceptActionView::Refuse,
        ),
        accept_transition(s, e).1 is Stop ==> s is AwaitLogin,
{
}

/// Every verdict that lets a login in accepts the client and fetches the history, for an
/// account that existed before and for one just created alike, and remembers which of the
/// two it was; only a refused login is refused.
pub proof fn law_every_admitted_login_is_accepted(nick: Seq<char>, id: i32, returning: bool, v: Result<(i32, bool), ChatError>)
    ensures
        accept_transition(
            AcceptStateView::AwaitVerdict(nick),
            AcceptEventView::Verdict(Ok((id, returning))),
        ) == (AcceptStateView::AwaitHistory(nick, returning), AcceptActionView::AcceptAndFetchHistory),
        (accept_transition(AcceptStateView::AwaitVerdict(nick), AcceptEventView::Verdict(v)).1 is Refuse) <==> v is Err,
{
}

/// A greeting is the history followed by one welcome line, which does not depend on the
/// history: `welcome back, ` and the nickname for an account that existed before, and
/// `welcome, ` and the nickname for a new one.
pub proof fn law_greeting_shape(history: Seq<char>, returning: bool, nick: Seq<char>)
    ensures
        greeting_spec(history, returning, nick) == history + greeting_spec(Seq::empty(), returning, nick),
        greeting_spec(history, true, nick) == history + "\nwelcome back, "@ + nick,
        greeting_spec(history, false, nick) == history + "\nwelcome, "@ + nick,
{
    assert(greeting_spec(history, true, nick) =~= history + "\nwelcome back, "@ + nick) by {
        reveal_strlit("\nwelcome");
        reveal_strlit(" back");
        reveal_strlit(", ");
        reveal_strlit("\nwelcome back, ");
    }
    assert(greeting_spec(history, false, nick) =~= history + "\nwelcome, "@ + nick) by {
        reveal_strlit("\nwelcome");
        reveal_strlit(", ");
        reveal_strlit("\nwelcome, ");
    }
    assert(greeting_spec(history, returning, nick) =~= history + greeting_spec(Seq::empty(), returning, nick));
}

} // verus!

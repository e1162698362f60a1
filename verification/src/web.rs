//! The decisions of the web front end: which page to show, which cookies to set, and how to
//! read the database server's answers.
use vstd::prelude::*;
use crate::location::{Location, LocationView, parse_location, location_text};
use crate::chat::{Message as ChatMessage, MessageType};
use crate::login_form;
use crate::logging_in::{LoginAttempt, LoginForm, LoginResult};
use crate::message::Message;
use crate::task::{LoginDirection, ServerTask, Task, TaskDirection};
use crate::text::{to_owned, join};

verus! {

/// A page to render: the template's name and the values to fill it with.
#[derive(Debug)]
pub struct PageRequest {
    pub template: String,
    pub data: Vec<(String, String)>,
}

/// A page request seen as plain values.
pub open spec fn page_view(p: PageRequest) -> (Seq<char>, Seq<(Seq<char>, Seq<char>)>) {
    (p.template@, p.data@.map_values(|kv: (String, String)| (kv.0@, kv.1@)))
}

/// A page with a template and one value.
fn page1(template: &str, key: &str, value: String) -> (r: PageRequest)
    ensures
        page_view(r) == (template@, seq![(key@, value@)]),
{
    let mut data: Vec<(String, String)> = Vec::new();
    data.push((to_owned(key), value));
    let r = PageRequest { template: to_owned(template), data };
    assert(page_view(r).1 =~= seq![(key@, value@)]);
    r
}

/// The login page of the first web front end, telling that no login failed.
pub fn index() -> (r: PageRequest)
    ensures
        page_view(r) == ("login"@, seq![("invalid_login"@, "false"@)]),
{
    page1("login", "invalid_login", to_owned("false"))
}

/// The chat page of the first web front end.
pub fn chat() -> (r: PageRequest)
    ensures
        page_view(r) == ("chat"@, seq![("nickname"@, "Blel"@)]),
{
    page1("chat", "nickname", to_owned("Blel"))
}

/// The page for a visitor: the location in the `user_state` cookie (the login page when
/// there is no cookie or its text does not read as a location) decides between the login
/// page, the login page telling of a wrong password, and the chat page under the visitor's
/// nickname.
pub open spec fn dispatch_spec(cookie: Option<Seq<char>>) -> (Seq<char>, Seq<(Seq<char>, Seq<char>)>) {
    let text = match cookie {
        Some(c) => c,
        None => "Login"@,
    };
    let location = match parse_location(text) {
        Ok(l) => l,
        Err(_) => LocationView::Login,
    };
    match location {
        LocationView::Login => ("index"@, Seq::empty()),
        LocationView::WrongPassword => ("index"@, seq![("issue"@, "wrong password"@)]),
        LocationView::Chat(nick) => ("chat"@, seq![("nickname"@, nick)]),
    }
}

/// The page for a visitor, from the text of its `user_state` cookie (see `dispatch_spec`).
pub fn dispatcher(cookie: Option<&str>) -> (r: PageRequest)
    ensures
        page_view(r) == dispatch_spec(match cookie {
            Some(c) => Some(c@),
            None => None,
        }),
{
    let text = match cookie {
        Some(c) => c,
        None => "Login",
    };
    let location = match Location::from_str(text) {
        Ok(l) => l,
        Err(_) => Location::Login,
    };
    match location {
        Location::Login => {
            let r = PageRequest { template: to_owned("index"), data: Vec::new() };
            assert(page_view(r).1 =~= Seq::empty());
            r
        },
        Location::WrongPassword => page1("index", "issue", to_owned("wrong password")),
        Location::Chat(user) => page1("chat", "nickname", user.nick),
    }
}

/// The cookies set after a login, in the order they are set (a later cookie of the same
/// name replaces an earlier one), and the nickname of a new user to announce.
#[derive(Debug)]
pub struct LoginOutcome {
    pub cookies: Vec<(String, String)>,
    pub new_user: Option<String>,
}

/// The cookies that a login verdict sets: first `user_state` is `LoggedIn`; then it is
/// the location that the verdict leads to (the wrong-password page, the login page after
/// an internal error, or the chat under the user's nickname), and a new user also gets
/// `new_user` set to `true` and is announced.
pub open spec fn login_spec(result: LoginResult) -> (Seq<(Seq<char>, Seq<char>)>, Option<Seq<char>>) {
    let first = ("user_state"@, "LoggedIn"@);
    match result {
        LoginResult::WrongPassword => (seq![first, ("user_state"@, location_text(LocationView::WrongPassword))], None),
        LoginResult::InternalError => (seq![first, ("user_state"@, location_text(LocationView::Login))], None),
        LoginResult::NewUser(u) => (
            seq![first, ("user_state"@, location_text(LocationView::Chat(u.nick@))), ("new_user"@, "true"@)],
            Some(u.nick@),
        ),
        LoginResult::ReturningUser(u) => (seq![first, ("user_state"@, location_text(LocationView::Chat(u.nick@)))], None),
    }
}

/// A login outcome seen as plain values.
pub open spec fn outcome_view(o: LoginOutcome) -> (Seq<(Seq<char>, Seq<char>)>, Option<Seq<char>>) {
    (
        o.cookies@.map_values(|kv: (String, String)| (kv.0@, kv.1@)),
        match o.new_user {
            Some(n) => Some(n@),
            None => None,
        },
    )
}

/// The cookies that a login verdict sets (see `login_spec`).
pub fn login(login_result: LoginResult) -> (r: LoginOutcome)
    ensures
        outcome_view(r) == login_spec(login_result),
{
    let ghost spec_result = login_spec(login_result);
    let mut cookies: Vec<(String, String)> = Vec::new();
    cookies.push((to_owned("user_state"), to_owned("LoggedIn")));
    let mut new_user: Option<String> = None;
    match login_result {
        LoginResult::WrongPassword => {
            cookies.push((to_owned("user_state"), Location::WrongPassword.to_string()));
        },
        LoginResult::InternalError => {
            cookies.push((to_owned("user_state"), Location::Login.to_string()));
        },
        LoginResult::NewUser(user) => {
            new_user = Some(user.nick.clone());
            cookies.push((to_owned("user_state"), Location::Chat(user).to_string()));
            cookies.push((to_owned("new_user"), to_owned("true")));
        },
        LoginResult::ReturningUser(user) => {
            cookies.push((to_owned("user_state"), Location::Chat(user).to_string()));
        },
    }
    let r = LoginOutcome { cookies, new_user };
    assert(outcome_view(r).0 =~= spec_result.0);
    r
}

/// The messages in the database server's answer to a history request; any other answer,
/// or none, gives no messages.
pub fn history_reply(reply: Option<Task>) -> (r: Vec<Message>)
    ensures
        match reply {
            Some(Task::History(TaskDirection::Response(h))) => r == h,
            _ => r@ == Seq::<Message>::empty(),
        },
{
    match reply {
        Some(Task::History(TaskDirection::Response(h))) => h,
        _ => Vec::new(),
    }
}

/// The nicknames in the database server's answer to a request for the users; any other
/// answer, or none, gives no nicknames.
pub fn mannschaft_reply(reply: Option<Task>) -> (r: Vec<String>)
    ensures
        match reply {
            Some(Task::Mannschaft(TaskDirection::Response(m))) => r == m,
            _ => r@ == Seq::<String>::empty(),
        },
{
    match reply {
        Some(Task::Mannschaft(TaskDirection::Response(m))) => m,
        _ => Vec::new(),
    }
}

/// The verdict in the database server's answer to a login request; any other answer, or
/// none, is an internal error.
pub fn receive_login_result(reply: Option<Task>) -> (r: LoginResult)
    ensures
        r == (match reply {
            Some(Task::User(LoginDirection::Response(l))) => l,
            _ => LoginResult::InternalError,
        }),
{
    match reply {
        Some(Task::User(LoginDirection::Response(l))) => l,
        _ => LoginResult::InternalError,
    }
}

/// The request that sends a login form to the database server.
pub fn backend_login(form: &LoginForm) -> (r: Task)
    ensures
        r matches Task::User(LoginDirection::Request(a)) && a.nick == form.nick && a.pass == form.pass,
{
    Task::User(LoginDirection::Request(LoginAttempt { nick: form.nick.clone(), pass: form.pass.clone() }))
}

/// A copy of a message.
pub fn copy_message(m: &Message) -> (r: Message)
    ensures
        r == *m,
{
    Message { username: m.username.clone(), message: m.message.clone(), deleted: m.deleted, date: m.date.clone() }
}

/// A posted message goes to the database server to be stored, and to the pages that listen.
pub fn post(form: Message) -> (r: (Task, ServerTask))
    ensures
        r == (Task::Message(form), ServerTask::Message(form)),
{
    (Task::Message(copy_message(&form)), ServerTask::Message(form))
}

/// Deleting a user goes to the database server, and the pages that listen are told.
pub fn delete(user: String) -> (r: (Task, ServerTask))
    ensures
        r == (Task::Delete(user), ServerTask::Deletion),
{
    (Task::Delete(user), ServerTask::Deletion)
}

/// The message that sends a login of the first web front end to the server: the password
/// as a `Pass` message of the user name.
pub fn login_message(login: login_form::LoginForm) -> (r: ChatMessage)
    ensures
        r == (ChatMessage { content: MessageType::Pass(login.password), nick: login.username }),
{
    ChatMessage { content: MessageType::Pass(login.password), nick: login.username }
}

/// The text of the address to connect to or to listen on: host, a colon, then port.
pub fn address_text(host: &str, port: &str) -> (r: String)
    ensures
        r@ == host@ + ":"@ + port@,
{
    let mut a = join(host, ":");
    a.append(port);
    a
}

/// Whether the standard library reads `text` as a socket address (`core::net::SocketAddr`'s
/// `FromStr`), an IP address and a port.
pub uninterp spec fn socket_address_text(text: Seq<char>) -> bool;

/// Parses `text` as a `core::net::SocketAddr`. The contract claims that whether it parses is
/// a function of the text alone, named `socket_address_text`.
#[verifier::external_body]
fn parses_as_socket_address(text: &str) -> (r: bool)
    ensures
        r == socket_address_text(text@),
{
    match text.parse::<core::net::SocketAddr>() {
        Ok(_) => true,
        Err(_) => false,
    }
}

/// The address used when the one given cannot be read.
pub open spec fn default_address() -> Seq<char> {
    "127.0.0.1:11111"@
}

/// The address to use, given the text of the one asked for and whether it reads as a
/// socket address: that text if it does, else `127.0.0.1:11111`.
pub fn chosen_address(asked: String, readable: bool) -> (r: String)
    ensures
        r@ == if readable { asked@ } else { default_address() },
{
    if readable {
        asked
    } else {
        to_owned("127.0.0.1:11111")
    }
}

/// The address to connect to or listen on: `host:port` when that reads as a socket
/// address, else `127.0.0.1:11111`.
pub fn address_or_default(host: &str, port: &str) -> (r: String)
    ensures
        r@ == if socket_address_text(host@ + ":"@ + port@) { host@ + ":"@ + port@ } else { default_address() },
{
    let asked = address_text(host, port);
    let readable = parses_as_socket_address(asked.as_str());
    chosen_address(asked, readable)
}

} // verus!

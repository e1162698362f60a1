use rusty_dreams::chat::{Message as ChatMessage, MessageType};
use rusty_dreams::error::ChatError;
use rusty_dreams::location::User;
use rusty_dreams::logging_in::{LoginAttempt, LoginResult};
use rusty_dreams::message::Message;
use rusty_dreams::server::accept::{accepting_step, acceptance, greeting, password_of, refusal, AcceptAction, AcceptEvent, AcceptState};
use rusty_dreams::server::auth::{check_login, check_login_created, login_db, login_db_created, DbLoginStep, LoginStep, StoredAccount, StoredUser};
use rusty_dreams::server::db::{awaits_reply, database_task, get_history, get_mannschaft, history, login_request, message_for_db, received_bytes, DbAction, StoredMessage, UserRow};
use rusty_dreams::server::registry::Clients;
use rusty_dreams::server::web_link::{web_link_step, WebLinkAction, WebLinkEvent};
use rusty_dreams::server::Args;
use rusty_dreams::task::{LoginDirection, Task, TaskDirection};

#[test]
fn broadcast_skips_sender() {
    let mut c = Clients::new();
    c.accomodate(1);
    c.accomodate(2);
    c.accomodate(3);
    c.accomodate(2);
    assert_eq!(c.len(), 3);
    let mut t = c.broadcast_targets(2);
    t.sort();
    assert_eq!(t, vec![1, 3]);
    c.remove_failed(&vec![3, 9]);
    assert!(!c.contains(3));
    assert!(c.contains(1) && c.contains(2));
    c.remove(1);
    assert_eq!(c.broadcast_targets(5), vec![2]);
    assert_eq!(Clients::new().broadcast_targets(1), Vec::<u64>::new());
}

fn login_msg(nick: &str, pass: &str) -> ChatMessage {
    ChatMessage { content: MessageType::Text(pass.to_string()), nick: nick.to_string() }
}

#[test]
fn accepting_a_client() {
    let (s, a) = accepting_step(AcceptState::AwaitLogin, AcceptEvent::Login(login_msg("ann", "pw")));
    match a {
        AcceptAction::CheckLogin { nick, pass } => {
            assert_eq!(nick, "ann");
            assert_eq!(pass, "pw");
        }
        other => panic!("unexpected {:?}", other),
    }
    let (s, a) = accepting_step(s, AcceptEvent::Verdict(Ok((4, true))));
    assert!(matches!(a, AcceptAction::AcceptAndFetchHistory));
    let (s, a) = accepting_step(s, AcceptEvent::History("\nbob: hi".to_string()));
    match a {
        AcceptAction::Welcome { greeting, nick } => {
            assert_eq!(greeting, "\nbob: hi\nwelcome back, ann");
            assert_eq!(nick, "ann");
        }
        other => panic!("unexpected {:?}", other),
    }
    assert!(matches!(s, AcceptState::AwaitLogin));
}

#[test]
fn refusing_a_client() {
    let (s, a) = accepting_step(AcceptState::AwaitLogin, AcceptEvent::LoginUndecodable);
    assert!(matches!(a, AcceptAction::Refuse));
    let (s, a) = accepting_step(s, AcceptEvent::LoginUnread);
    assert!(matches!(a, AcceptAction::Skip));
    let (s, _) = accepting_step(s, AcceptEvent::Login(login_msg("x", "y")));
    let (s, a) = accepting_step(s, AcceptEvent::Verdict(Err(ChatError::LoginIssue)));
    assert!(matches!(a, AcceptAction::Refuse));
    let (_, a) = accepting_step(s, AcceptEvent::History(String::new()));
    assert!(matches!(a, AcceptAction::Ignore));
}

#[test]
fn greeting_and_password() {
    assert_eq!(greeting("", false, "zed"), "\nwelcome, zed");
    assert_eq!(password_of(MessageType::Text("s3".to_string())), "s3");
    assert_eq!(password_of(MessageType::Image(vec![1])), "");
    let r = refusal();
    assert_eq!(r.nick, "system");
    assert!(matches!(r.content, MessageType::Text(ref t) if t == ".refuse"));
    assert!(matches!(acceptance().content, MessageType::Text(ref t) if t == ".accept"));
}

fn attempt(n: &str, p: &str) -> LoginAttempt {
    LoginAttempt { nick: n.to_string(), pass: p.to_string() }
}

#[test]
fn checking_logins() {
    match check_login(attempt("a", "p"), StoredUser::Found { pass: Some("p".to_string()) }) {
        LoginStep::Done(LoginResult::ReturningUser(u)) => assert_eq!(u.nick, "a"),
        other => panic!("unexpected {:?}", other),
    }
    assert!(matches!(
        check_login(attempt("a", "q"), StoredUser::Found { pass: Some("p".to_string()) }),
        LoginStep::Done(LoginResult::WrongPassword)
    ));
    assert!(matches!(
        check_login(attempt("a", "q"), StoredUser::Found { pass: None }),
        LoginStep::Done(LoginResult::InternalError)
    ));
    match check_login(attempt("new", "pw"), StoredUser::Missing) {
        LoginStep::CreateUser { nick, pass } => assert_eq!((nick, pass), ("new".to_string(), "pw".to_string())),
        other => panic!("unexpected {:?}", other),
    }
    assert!(matches!(check_login_created("n".to_string(), true), LoginResult::NewUser(User { ref nick }) if nick == "n"));
    assert!(matches!(check_login_created("n".to_string(), false), LoginResult::InternalError));
}

#[test]
fn checking_db_logins() {
    assert!(matches!(
        login_db("a", "p", StoredAccount::Found { id: 3, pass: Some("p".to_string()) }),
        DbLoginStep::Done(Ok((3, true)))
    ));
    assert!(matches!(
        login_db("a", "x", StoredAccount::Found { id: 3, pass: Some("p".to_string()) }),
        DbLoginStep::Done(Err(ChatError::LoginIssue))
    ));
    assert!(matches!(login_db("a", "x", StoredAccount::Found { id: 7, pass: None }), DbLoginStep::Done(Ok((7, true)))));
    match login_db("a", "x", StoredAccount::Missing) {
        DbLoginStep::CreateUser { nick, pass } => assert_eq!((nick, pass), ("a".to_string(), "x".to_string())),
        other => panic!("unexpected {:?}", other),
    }
    assert_eq!(login_db_created(Some(5)), Ok((5, false)));
    assert_eq!(login_db_created(None), Err(ChatError::DatabaseIssue));
}

fn row(n: Option<&str>, m: Option<&str>, d: Option<&str>) -> StoredMessage {
    StoredMessage { nick: n.map(|s| s.to_string()), message: m.map(|s| s.to_string()), date: d.map(|s| s.to_string()) }
}

#[test]
fn history_text() {
    let rows = vec![row(Some("a"), Some("hi"), None), row(None, Some("lost"), None), row(Some("b"), Some("yo"), None)];
    assert_eq!(history(Some(rows)), "\na: hi\nb: yo");
    assert_eq!(history(None), "");
}

#[test]
fn history_messages() {
    let users = vec![
        UserRow { nick: Some("gone".to_string()), deleted: Some(true) },
        UserRow { nick: Some("here".to_string()), deleted: None },
    ];
    let rows = vec![row(Some("gone"), Some("m1"), Some("d1")), row(Some("here"), None, None), row(None, None, None)];
    match get_history(Some(users.clone()), Some(rows)) {
        Task::History(TaskDirection::Response(v)) => {
            let got: Vec<(String, bool, String, String)> =
                v.into_iter().map(|m: Message| (m.username, m.deleted, m.message, m.date)).collect();
            assert_eq!(
                got,
                vec![
                    ("gone".to_string(), true, "m1".to_string(), "d1".to_string()),
                    ("here".to_string(), false, "...".to_string(), "?????".to_string()),
                    ("user".to_string(), false, "...".to_string(), "?????".to_string()),
                ]
            );
        }
        other => panic!("unexpected {:?}", other),
    }
    assert!(matches!(get_history(None, Some(vec![])), Task::History(TaskDirection::Response(ref v)) if v.is_empty()));
    match get_mannschaft(Some(vec![UserRow { nick: None, deleted: None }, users[1].clone()])) {
        Task::Mannschaft(TaskDirection::Response(v)) => assert_eq!(v, vec!["".to_string(), "here".to_string()]),
        other => panic!("unexpected {:?}", other),
    }
}

#[test]
fn database_requests() {
    let m = Message { username: "u".to_string(), message: "m".to_string(), deleted: false, date: "d".to_string() };
    match database_task(Task::Message(m)) {
        DbAction::Store { message, nick, date } => assert_eq!((message, nick, date), ("m".to_string(), "u".to_string(), "d".to_string())),
        other => panic!("unexpected {:?}", other),
    }
    assert!(matches!(database_task(Task::History(TaskDirection::Request)), DbAction::SendHistory));
    assert!(matches!(database_task(Task::Mannschaft(TaskDirection::Request)), DbAction::SendMannschaft));
    assert!(matches!(database_task(Task::Delete("x".to_string())), DbAction::DeleteUser(ref u) if u == "x"));
    assert!(matches!(database_task(Task::User(LoginDirection::Response(LoginResult::WrongPassword))), DbAction::Ignore));
    assert!(awaits_reply(&Task::History(TaskDirection::Request)));
    assert!(awaits_reply(&Task::User(LoginDirection::Request(attempt("a", "b")))));
    assert!(!awaits_reply(&Task::Delete("x".to_string())));
    assert!(!awaits_reply(&Task::History(TaskDirection::Response(vec![]))));
}

#[test]
fn login_and_storage_of_chat_messages() {
    let pass = ChatMessage { content: MessageType::Pass("pw".to_string()), nick: "n".to_string() };
    assert_eq!(login_request(pass), Some(("n".to_string(), "pw".to_string())));
    assert_eq!(login_request(login_msg("n", "t")), None);
    assert_eq!(message_for_db(None), Err(ChatError::DeserializingIssue));
    assert_eq!(message_for_db(Some(login_msg("n", "hello"))), Ok("hello".to_string()));
    let img = ChatMessage { content: MessageType::Image(vec![]), nick: "n".to_string() };
    assert_eq!(message_for_db(Some(img)), Err(ChatError::WritingIssue));
    assert_eq!(received_bytes(&vec![1, 2, 3], 2), Some(vec![1, 2]));
    assert_eq!(received_bytes(&vec![1, 2, 3], 0), None);
}

#[test]
fn server_args() {
    let a = Args { host: "h".to_string(), port: "1".to_string() };
    assert_eq!(a.deconstruct(), ("h".to_string(), "1".to_string()));
}

#[test]
fn accepting_stops_on_connection_faults() {
    let (_, a) = accepting_step(AcceptState::AwaitLogin, AcceptEvent::ConnectionFailed);
    assert!(matches!(a, AcceptAction::Stop(ChatError::AcceptanceIssue)));
    let (_, a) = accepting_step(AcceptState::AwaitLogin, AcceptEvent::HeaderUnread);
    assert!(matches!(a, AcceptAction::Stop(ChatError::ReadingIssue)));
    let (_, a) = accepting_step(AcceptState::AwaitLogin, AcceptEvent::HandOverFailed);
    assert!(matches!(a, AcceptAction::Stop(ChatError::AccomodationIssue)));
}

#[test]
fn web_link_rounds() {
    assert!(matches!(web_link_step(WebLinkEvent::HeaderUnread), WebLinkAction::Stop(ChatError::ReadingIssue)));
    assert!(matches!(web_link_step(WebLinkEvent::NothingRead), WebLinkAction::Continue));
    assert!(matches!(web_link_step(WebLinkEvent::Frame(None)), WebLinkAction::Stop(ChatError::DeserializingIssue)));
    assert!(matches!(web_link_step(WebLinkEvent::BodyUnread), WebLinkAction::Stop(ChatError::OtherEndIssue)));
    assert!(matches!(web_link_step(WebLinkEvent::ForwardFailed), WebLinkAction::Stop(ChatError::DatabaseIssue)));
    assert!(matches!(
        web_link_step(WebLinkEvent::Frame(Some(Task::History(TaskDirection::Request)))),
        WebLinkAction::Forward { task: Task::History(TaskDirection::Request), await_answer: true }
    ));
    assert!(matches!(
        web_link_step(WebLinkEvent::Frame(Some(Task::Delete("bob".to_string())))),
        WebLinkAction::Forward { task: Task::Delete(_), await_answer: false }
    ));
    assert!(matches!(web_link_step(WebLinkEvent::Answer(None)), WebLinkAction::Continue));
    assert!(matches!(
        web_link_step(WebLinkEvent::Answer(Some(Task::History(TaskDirection::Response(vec![]))))),
        WebLinkAction::SendBack(Task::History(TaskDirection::Response(_)))
    ));
}

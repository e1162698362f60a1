use rusty_dreams::web::login_message;
use rusty_dreams::login_form::LoginForm as FirstForm;
use rusty_dreams::chat::MessageType;
use rusty_dreams::location::User;
use rusty_dreams::logging_in::{LoginForm, LoginResult};
use rusty_dreams::message::Message;
use rusty_dreams::task::{LoginDirection, ServerTask, Task, TaskDirection};
use rusty_dreams::web::{address_or_default, chosen_address, address_text, backend_login, chat, delete, dispatcher, history_reply, index, login, mannschaft_reply, post, receive_login_result, PageRequest};

fn pairs(p: &PageRequest) -> Vec<(&str, &str)> {
    p.data.iter().map(|(k, v)| (k.as_str(), v.as_str())).collect()
}

#[test]
fn first_front_end_pages() {
    let i = index();
    assert_eq!(i.template, "login");
    assert_eq!(pairs(&i), vec![("invalid_login", "false")]);
    let c = chat();
    assert_eq!(c.template, "chat");
    assert_eq!(pairs(&c), vec![("nickname", "Blel")]);
}

#[test]
fn dispatching_by_cookie() {
    let p = dispatcher(None);
    assert_eq!(p.template, "index");
    assert!(p.data.is_empty());
    let p = dispatcher(Some("WrongPassword"));
    assert_eq!(p.template, "index");
    assert_eq!(pairs(&p), vec![("issue", "wrong password")]);
    let p = dispatcher(Some("Chat ann"));
    assert_eq!(p.template, "chat");
    assert_eq!(pairs(&p), vec![("nickname", " ann")]);
    let p = dispatcher(Some("garbage"));
    assert_eq!(p.template, "index");
    assert!(p.data.is_empty());
}

fn cookies(r: LoginResult) -> (Vec<(String, String)>, Option<String>) {
    let o = login(r);
    (o.cookies, o.new_user)
}

fn kv(k: &str, v: &str) -> (String, String) {
    (k.to_string(), v.to_string())
}

#[test]
fn login_cookies() {
    assert_eq!(
        cookies(LoginResult::WrongPassword),
        (vec![kv("user_state", "LoggedIn"), kv("user_state", "WrongPassword")], None)
    );
    assert_eq!(
        cookies(LoginResult::InternalError),
        (vec![kv("user_state", "LoggedIn"), kv("user_state", "Login")], None)
    );
    assert_eq!(
        cookies(LoginResult::NewUser(User { nick: "n".to_string() })),
        (vec![kv("user_state", "LoggedIn"), kv("user_state", "Chat n"), kv("new_user", "true")], Some("n".to_string()))
    );
    assert_eq!(
        cookies(LoginResult::ReturningUser(User { nick: "r".to_string() })),
        (vec![kv("user_state", "LoggedIn"), kv("user_state", "Chat r")], None)
    );
}

fn msg(t: &str) -> Message {
    Message { username: "u".to_string(), message: t.to_string(), deleted: false, date: "d".to_string() }
}

#[test]
fn reading_replies() {
    let h = history_reply(Some(Task::History(TaskDirection::Response(vec![msg("a"), msg("b")]))));
    assert_eq!(h.iter().map(|m| m.message.as_str()).collect::<Vec<_>>(), vec!["a", "b"]);
    assert!(history_reply(Some(Task::Delete("x".to_string()))).is_empty());
    assert!(history_reply(None).is_empty());
    assert_eq!(mannschaft_reply(Some(Task::Mannschaft(TaskDirection::Response(vec!["z".to_string()])))), vec!["z".to_string()]);
    assert!(mannschaft_reply(Some(Task::Mannschaft(TaskDirection::Request))).is_empty());
    assert!(matches!(
        receive_login_result(Some(Task::User(LoginDirection::Response(LoginResult::WrongPassword)))),
        LoginResult::WrongPassword
    ));
    assert!(matches!(receive_login_result(None), LoginResult::InternalError));
}

#[test]
fn requests_to_the_database_server() {
    let t = backend_login(&LoginForm { nick: "a".to_string(), pass: "b".to_string() });
    match t {
        Task::User(LoginDirection::Request(a)) => assert_eq!(a.dec(), ("a".to_string(), "b".to_string())),
        other => panic!("unexpected {:?}", other),
    }
    let (t, s) = post(msg("hey"));
    assert!(matches!(t, Task::Message(ref m) if m.message == "hey"));
    assert!(matches!(s, ServerTask::Message(ref m) if m.message == "hey"));
    let (t, s) = delete("bob".to_string());
    assert!(matches!(t, Task::Delete(ref u) if u == "bob"));
    assert!(matches!(s, ServerTask::Deletion));
    assert_eq!(address_text("127.0.0.1", "11111"), "127.0.0.1:11111");
}

#[test]
fn first_front_end_login_message() {
    let m = login_message(FirstForm { username: "u".to_string(), password: "p".to_string() });
    assert_eq!(m.nick, "u");
    assert!(matches!(m.content, MessageType::Pass(ref p) if p == "p"));
}

#[test]
fn addresses_fall_back_to_the_default() {
    assert_eq!(address_or_default("127.0.0.1", "8080"), "127.0.0.1:8080");
    assert_eq!(address_or_default("0.0.0.0", "11111"), "0.0.0.0:11111");
    assert_eq!(address_or_default("localhost", "8080"), "127.0.0.1:11111");
    assert_eq!(address_or_default("127.0.0.1", "port"), "127.0.0.1:11111");
    assert_eq!(chosen_address("x".to_string(), true), "x");
    assert_eq!(chosen_address("x".to_string(), false), "127.0.0.1:11111");
}

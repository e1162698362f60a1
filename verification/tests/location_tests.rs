use rusty_dreams::error::ChatError;
use rusty_dreams::location::{Location, User};
use rusty_dreams::logging_in::{LoginAttempt, LoginForm};

#[test]
fn location_text() {
    assert_eq!(Location::Login.to_string(), "Login");
    assert_eq!(Location::WrongPassword.to_string(), "WrongPassword");
    assert_eq!(Location::Chat(User { nick: "bob".to_string() }).to_string(), "Chat bob");
}

#[test]
fn location_read() {
    assert!(matches!(Location::from_str("Login"), Ok(Location::Login)));
    assert!(matches!(Location::from_str("WrongPassword"), Ok(Location::WrongPassword)));
    match Location::from_str("Chatbob") {
        Ok(Location::Chat(u)) => assert_eq!(u.nick, "bob"),
        other => panic!("unexpected {:?}", other),
    }
    assert_eq!(Location::from_str("login").unwrap_err(), ChatError::CookieIssue);
    assert_eq!(Location::from_str("").unwrap_err(), ChatError::CookieIssue);
}

#[test]
fn location_read_back() {
    for l in [Location::Login, Location::WrongPassword] {
        let t = l.to_string();
        assert_eq!(Location::from_str(&t).unwrap().to_string(), t);
    }
    match Location::from_str(&Location::Chat(User { nick: "a".to_string() }).to_string()) {
        Ok(Location::Chat(u)) => assert_eq!(u.nick, " a"),
        other => panic!("unexpected {:?}", other),
    }
}

#[test]
fn login_attempt_from_form() {
    let form = LoginForm { nick: "n".to_string(), pass: "p".to_string() };
    let attempt: LoginAttempt = form.into();
    assert_eq!(attempt.dec(), ("n".to_string(), "p".to_string()));
}

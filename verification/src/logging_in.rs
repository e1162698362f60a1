//! Logging in through the web front end.
use vstd::prelude::*;
use crate::location::User;

verus! {

/// The login form as the web front end receives it.
#[derive(Debug, Clone)]
pub struct LoginForm {
    pub nick: String,
    pub pass: String,
}

/// What the database server answers to a login attempt.
#[derive(Debug, Clone, Default)]
pub enum LoginResult {
    #[default]
    WrongPassword,
    InternalError,
    NewUser(User),
    ReturningUser(User),
}

/// A login attempt as the web front end sends it to the database server.
#[derive(Debug, Clone)]
pub struct LoginAttempt {
    pub nick: String,
    pub pass: String,
}

impl LoginAttempt {
    /// Takes the attempt apart into its nickname and password.
    pub fn dec(self) -> (r: (String, String))
        ensures
            r == (self.nick, self.pass),
    {
        (self.nick, self.pass)
    }
}

impl From<LoginForm> for LoginAttempt {
    fn from(form: LoginForm) -> (r: Self) {
        LoginAttempt { nick: form.nick, pass: form.pass }
    }
}

impl vstd::std_specs::convert::FromSpecImpl<LoginForm> for LoginAttempt {
    open spec fn obeys_from_spec() -> bool {
        true
    }

    open spec fn from_spec(form: LoginForm) -> Self {
        LoginAttempt { nick: form.nick, pass: form.pass }
    }
}

/// An attempt made from a form, taken apart, gives back the form's nickname and password.
pub proof fn law_attempt_from_form(form: LoginForm)
    ensures
        ({
            let a = <LoginAttempt as vstd::std_specs::convert::FromSpec<LoginForm>>::from_spec(form);
            (a.nick, a.pass) == (form.nick, form.pass)
        }),
{
}

} // verus!

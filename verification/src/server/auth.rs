//! Checking a login against the accounts that the database holds.
use vstd::prelude::*;
use crate::error::ChatError;
use crate::location::User;
use crate::logging_in::{LoginAttempt, LoginResult};
use crate::text::to_owned;

verus! {

/// What the database answered when asked for the account of a nickname: nothing (no
/// account, or the lookup failed), or the account with a password column that may be empty.
#[derive(Debug)]
pub enum StoredUser {
    Missing,
    Found { pass: Option<String> },
}

/// The next thing to do with a login attempt.
#[derive(Debug)]
pub enum LoginStep {
    /// The verdict is known.
    Done(LoginResult),
    /// Create the account `nick` with password `pass`, then ask `check_login_created`.
    CreateUser { nick: String, pass: String },
}

/// Checks a login attempt against what the database holds under its nickname: an unknown
/// nickname gets an account; a known one is let in when its stored password equals the
/// attempt's; an account without a password is an internal error.
pub fn check_login(login_attempt: LoginAttempt, stored: StoredUser) -> (r: LoginStep)
    ensures
        stored is Missing ==> r == (LoginStep::CreateUser { nick: login_attempt.nick, pass: login_attempt.pass }),
        stored matches StoredUser::Found { pass: Some(p) } ==> r == (if p@ == login_attempt.pass@ {
            LoginStep::Done(LoginResult::ReturningUser(User { nick: login_attempt.nick }))
        } else {
            LoginStep::Done(LoginResult::WrongPassword)
        }),
        stored matches StoredUser::Found { pass: None } ==> r == LoginStep::Done(LoginResult::InternalError),
{
    let (nick, pass) = login_attempt.dec();
    match stored {
        StoredUser::Missing => LoginStep::CreateUser { nick, pass },
        StoredUser::Found { pass: Some(db_pass) } => {
            if db_pass == pass {
                LoginStep::Done(LoginResult::ReturningUser(User { nick }))
            } else {
                LoginStep::Done(LoginResult::WrongPassword)
            }
        },
        StoredUser::Found { pass: None } => LoginStep::Done(LoginResult::InternalError),
    }
}

/// The verdict once the account for `nick` was created, or could not be.
pub fn check_login_created(nick: String, created: bool) -> (r: LoginResult)
    ensures
        r == (if created {
            LoginResult::NewUser(User { nick })
        } else {
            LoginResult::InternalError
        }),
{
    if created {
        LoginResult::NewUser(User { nick })
    } else {
        LoginResult::InternalError
    }
}

/// What the database answered when asked for the account of a nickname: nothing (no
/// account, or the lookup failed), or the account's identifier and password column.
#[derive(Debug)]
pub enum StoredAccount {
    Missing,
    Found { id: i32, pass: Option<String> },
}

/// The next thing to do with a login to the chat server.
#[derive(Debug)]
pub enum DbLoginStep {
    /// The verdict is known: the account and whether it existed before, or the refusal.
    Done(Result<(i32, bool), ChatError>),
    /// Create the account `nick` with password `pass`, then ask `login_db_created`.
    CreateUser { nick: String, pass: String },
}

/// Checks a login to the chat server: an unknown nickname gets an account; a known one is
/// let in when its stored password equals the given one, or when it has no stored password.
pub fn login_db(nick: &str, pass: &str, stored: StoredAccount) -> (r: DbLoginStep)
    ensures
        stored is Missing ==> (r matches DbLoginStep::CreateUser { nick: n, pass: p } && n@ == nick@ && p@ == pass@),
        stored matches StoredAccount::Found { id, pass: Some(p) } ==> r == DbLoginStep::Done(if p@ == pass@ {
            Ok((id, true))
        } else {
            Err(ChatError::LoginIssue)
        }),
        stored matches StoredAccount::Found { id, pass: None } ==> r == DbLoginStep::Done(Ok((id, true))),
{
    match stored {
        StoredAccount::Missing => DbLoginStep::CreateUser { nick: to_owned(nick), pass: to_owned(pass) },
        StoredAccount::Found { id, pass: Some(db_pass) } => {
            if db_pass == to_owned(pass) {
                DbLoginStep::Done(Ok((id, true)))
            } else {
                DbLoginStep::Done(Err(ChatError::LoginIssue))
            }
        },
        StoredAccount::Found { id, pass: None } => DbLoginStep::Done(Ok((id, true))),
    }
}

/// The verdict once an account was created under identifier `id`, or could not be.
pub fn login_db_created(id: Option<i32>) -> (r: Result<(i32, bool), ChatError>)
    ensures
        r == (match id {
            Some(i) => Ok((i, false)),
            None => Err(ChatError::DatabaseIssue),
        }),
{
    match id {
        Some(i) => Ok((i, false)),
        None => Err(ChatError::DatabaseIssue),
    }
}

} // verus!

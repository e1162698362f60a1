//! The login form of the first web front end.
use vstd::prelude::*;

verus! {

/// A login form with a user name and a password.
#[derive(Debug, Clone)]
pub struct LoginForm {
    pub username: String,
    pub password: String,
}

} // verus!

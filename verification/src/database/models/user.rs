use crate::pattern::{is_match, matches_pattern};
use crate::routes::users::helpers::{is_password_valid, is_strong_password, password_known};
use vstd::prelude::*;

verus! {

/// A row of the user table. `password` holds the digest of the password, never the
/// password itself.
#[derive(Debug)]
pub struct User {
    pub uid: i32,
    pub username: String,
    pub email: String,
    pub password: String,
}

/// An `User` as plain values, as contracts speak of it.
pub struct UserView {
    pub uid: i32,
    pub username: Seq<char>,
    pub email: Seq<char>,
    pub password: Seq<char>,
}

impl View for User {
    type V = UserView;

    open spec fn view(&self) -> UserView {
        UserView {
            uid: self.uid,
            username: self.username@,
            email: self.email@,
            password: self.password@,
        }
    }
}

/// The form of a user name: letters, digits and underscores, at least one.
pub open spec fn username_pattern() -> Seq<char> {
    "^[a-zA-Z0-9_]+$"@
}

/// The form of an e-mail address.
pub open spec fn email_pattern() -> Seq<char> {
    "^[a-zA-Z0-9._%+-]+@[a-zA-Z0-9.-]+\\.[a-zA-Z]{2,}$"@
}

impl User {
    /// Whether `u` has the form of a user name.
    pub fn username_is_valid(u: &str) -> (b: bool)
        ensures
            b == matches_pattern(username_pattern(), u@),
    {
        is_match("^[a-zA-Z0-9_]+$", u)
    }

    /// Whether `e` has the form of an e-mail address.
    pub fn email_is_valid(e: &str) -> (b: bool)
        ensures
            b == matches_pattern(email_pattern(), e@),
    {
        is_match("^[a-zA-Z0-9._%+-]+@[a-zA-Z0-9.-]+\\.[a-zA-Z]{2,}$", e)
    }

    /// Whether `pwd` is strong enough for a password.
    pub fn is_password_valid(pwd: &str) -> (b: bool)
        ensures
            b == is_strong_password(pwd@),
            password_known(pwd@),
    {
        is_password_valid(pwd)
    }
}

} // verus!

use crate::auth::helpers::{verified, verify_jwt_token};
use crate::routes::error::AuthError;
use crate::text::{
    after_prefix, has_prefix, starts_with, string_from, string_from_chars, to_chars,
};
use vstd::prelude::*;

verus! {

/// The `Authorization` header of a request, as far as the guard needs it.
#[derive(Debug)]
pub enum HeaderText {
    /// The request has no such header.
    Absent,
    /// The header is there, but its value is not text.
    Unreadable,
    /// The header's value.
    Text(String),
}

/// A byte that may stand in a header value that is text: a visible ASCII character,
/// a space or a horizontal tab.
pub open spec fn is_visible_ascii(b: u8) -> bool {
    32 <= b < 127 || b == 9
}

/// Whether every byte of `bytes` may stand in a header value that is text.
pub open spec fn is_header_text(bytes: Seq<u8>) -> bool {
    forall|i: int| 0 <= i < bytes.len() ==> is_visible_ascii(#[trigger] bytes[i])
}

/// The characters that the ASCII bytes `bytes` stand for.
pub open spec fn ascii_text(bytes: Seq<u8>) -> Seq<char> {
    bytes.map_values(|b: u8| b as char)
}

impl HeaderText {
    /// Reads the value of the `Authorization` header of a request, if the request has
    /// one. A value is text when all its bytes are visible ASCII characters, spaces
    /// or horizontal tabs.
    pub fn read(value: Option<&[u8]>) -> (r: HeaderText)
        ensures
            match value {
                None => r is Absent,
                Some(bytes) => if is_header_text(bytes@) {
                    r matches HeaderText::Text(text) && text@ == ascii_text(bytes@)
                } else {
                    r is Unreadable
                },
            },
    {
        let bytes = match value {
            None => { return HeaderText::Absent; },
            Some(bytes) => bytes,
        };
        let mut chars: Vec<char> = Vec::new();
        let mut i: usize = 0;
        while i < bytes.len()
            invariant
                0 <= i <= bytes.len(),
                value == Some(bytes),
                is_header_text(bytes@.take(i as int)),
                chars@ == ascii_text(bytes@.take(i as int)),
            decreases bytes.len() - i,
        {
            let b = bytes[i];
            if !((b >= 32 && b < 127) || b == 9) {
                return HeaderText::Unreadable;
            }
            proof {
                let longer = bytes@.take(i + 1);
                assert forall|j: int| 0 <= j < longer.len() implies is_visible_ascii(
                    #[trigger] longer[j],
                ) by {}
            }
            chars.push(b as char);
            i += 1;
        }
        proof {
            assert(bytes@.take(bytes.len() as int) == bytes@);
        }
        HeaderText::Text(string_from_chars(&chars))
    }
}

/// The verified identity that travels with a request once the guard has let it pass.
#[derive(Debug)]
pub struct AuthenticationExtension {
    pub uid: i32,
    pub username: String,
}

/// Where a request stands at the guard.
#[derive(Clone, Copy, Debug, PartialEq, Eq, Structural)]
pub enum GuardState {
    /// No `Authorization` header was sent.
    NoHeader,
    /// The header is not text, or does not begin with the bearer prefix.
    Malformed,
    /// The token did not verify.
    TokenRejected(AuthError),
    /// The token is good, but its user is no longer on record.
    UnknownUser,
    /// The user could not be looked up.
    StoreFailed,
}

/// A request turned away at the guard.
#[derive(Debug)]
pub struct Rejection {
    pub state: GuardState,
    pub status: u16,
    pub message: String,
}

/// What the guard decides for a request.
#[derive(Debug)]
pub enum GuardOutcome {
    /// The request ends here.
    Rejected(Rejection),
    /// The request goes on to its handler with this identity.
    Verified(AuthenticationExtension),
    /// The token is good; the user has to be looked up before the request may go on.
    CheckUser(AuthenticationExtension),
}

/// What came of looking a user up.
#[derive(Debug)]
pub enum UserLookup {
    Found,
    NotFound,
    Failed(String),
}

impl GuardOutcome {
    /// This outcome turns the request away in state `state`, with `status` and
    /// `message`.
    pub open spec fn rejects(self, state: GuardState, status: u16, message: Seq<char>) -> bool {
        self matches GuardOutcome::Rejected(r) && r.state == state && r.status == status
            && r.message@ == message
    }

    /// This outcome lets the request pass as the user `uid` named `username`.
    pub open spec fn admits(self, uid: i32, username: Seq<char>) -> bool {
        self matches GuardOutcome::Verified(e) && e.uid == uid && e.username@ == username
    }

    /// This outcome asks for the user `uid` named `username` to be looked up.
    pub open spec fn asks_for(self, uid: i32, username: Seq<char>) -> bool {
        self matches GuardOutcome::CheckUser(e) && e.uid == uid && e.username@ == username
    }
}

/// The prefix that a bearer token carries in the header.
pub open spec fn bearer_prefix() -> Seq<char> {
    "Bearer "@
}

/// The token in a header value, if the value begins with the bearer prefix.
pub open spec fn bearer_token(value: Seq<char>) -> Option<Seq<char>> {
    if has_prefix(value, bearer_prefix()) {
        Some(after_prefix(value, bearer_prefix().len() as int))
    } else {
        None
    }
}

/// A header value made of the bearer prefix and a token carries that token.
pub proof fn law_bearer_token_is_carried(token: Seq<char>)
    ensures
        bearer_token(bearer_prefix() + token) == Some(token),
{
    let value = bearer_prefix() + token;
    assert(value.subrange(0, bearer_prefix().len() as int) == bearer_prefix());
}

/// The message with which a token is turned away.
pub open spec fn auth_error_text(e: AuthError) -> Seq<char> {
    match e {
        AuthError::MissingHeader => "No bearer token passed"@,
        AuthError::Malformed => "Invalid claims in jwt"@,
        AuthError::InvalidSignature => "Failed to verify key"@,
        AuthError::Expired => "JWT is expired"@,
    }
}

/// The message with which a token is turned away.
pub fn auth_error_message(e: AuthError) -> (s: String)
    ensures
        s@ == auth_error_text(e),
{
    match e {
        AuthError::MissingHeader => "No bearer token passed".to_owned(),
        AuthError::Malformed => "Invalid claims in jwt".to_owned(),
        AuthError::InvalidSignature => "Failed to verify key".to_owned(),
        AuthError::Expired => "JWT is expired".to_owned(),
    }
}

/// The token in a header value, if the value begins with the bearer prefix.
pub fn extract_bearer_token(value: &str) -> (r: Option<String>)
    ensures
        match bearer_token(value@) {
            Some(token) => r matches Some(t) && t@ == token,
            None => r is None,
        },
{
    let chars = to_chars(value);
    if !starts_with(&chars, "Bearer ") {
        return None;
    }
    proof {
        reveal_strlit("Bearer ");
    }
    Some(string_from(&chars, 7))
}

/// The policy of the guard: whether a user is looked up again on every request.
#[derive(Clone, Copy, Debug, PartialEq, Eq, Structural)]
pub struct Authentication {
    pub revalidate_user: bool,
}

/// The guard itself, made from a policy.
#[derive(Clone, Copy, Debug, PartialEq, Eq, Structural)]
pub struct AuthenticationMiddleware {
    pub revalidate_user: bool,
}

impl Authentication {
    /// The guard that keeps this policy.
    pub fn new_transform(&self) -> (guard: AuthenticationMiddleware)
        ensures
            guard.revalidate_user == self.revalidate_user,
    {
        AuthenticationMiddleware { revalidate_user: self.revalidate_user }
    }
}

/// What the guard owes a request with the header `header`, given what verifying a
/// token under `secret` comes to at the time `now`.
pub open spec fn guard_decides(
    revalidate_user: bool,
    header: HeaderText,
    secret: Seq<char>,
    now: u64,
    outcome: GuardOutcome,
) -> bool {
    match header {
        HeaderText::Absent => outcome.rejects(GuardState::NoHeader, 401, "No bearer token passed"@),
        HeaderText::Unreadable => outcome.rejects(
            GuardState::Malformed,
            401,
            "Failed to parse bearer token to string"@,
        ),
        HeaderText::Text(value) => match bearer_token(value@) {
            None => outcome.rejects(GuardState::Malformed, 401, "Invalid bearer token"@),
            Some(token) => match verified(token, secret, now) {
                Err(e) => outcome.rejects(GuardState::TokenRejected(e), 401, auth_error_text(e)),
                Ok(identity) => if revalidate_user {
                    outcome.asks_for(identity.user_id, identity.username)
                } else {
                    outcome.admits(identity.user_id, identity.username)
                },
            },
        },
    }
}

/// A request that carries a token which verifies is let through as the user of the
/// token, or has that user looked up where the policy is to look users up again; a
/// request whose token does not verify is never let through.
pub proof fn law_guard_follows_verification(
    revalidate_user: bool,
    value: String,
    token: Seq<char>,
    secret: Seq<char>,
    now: u64,
    outcome: GuardOutcome,
)
    requires
        value@ == bearer_prefix() + token,
        guard_decides(revalidate_user, HeaderText::Text(value), secret, now, outcome),
    ensures
        match verified(token, secret, now) {
            Ok(identity) => if revalidate_user {
                outcome.asks_for(identity.user_id, identity.username)
            } else {
                outcome.admits(identity.user_id, identity.username)
            },
            Err(e) => outcome.rejects(GuardState::TokenRejected(e), 401, auth_error_text(e)),
        },
{
    law_bearer_token_is_carried(token);
}

fn reject(state: GuardState, status: u16, message: String) -> (r: GuardOutcome)
    ensures
        r.rejects(state, status, message@),
{
    GuardOutcome::Rejected(Rejection { state, status, message })
}

impl AuthenticationMiddleware {
    /// Decides on a request from its `Authorization` header, the secret that tokens are
    /// signed with, and the time `now` in seconds since the epoch.
    pub fn call(&self, header: &HeaderText, secret: &str, now: u64) -> (outcome: GuardOutcome)
        ensures
            guard_decides(self.revalidate_user, *header, secret@, now, outcome),
    {
        let value = match header {
            HeaderText::Absent => {
                return reject(GuardState::NoHeader, 401, "No bearer token passed".to_owned());
            },
            HeaderText::Unreadable => {
                return reject(
                    GuardState::Malformed,
                    401,
                    "Failed to parse bearer token to string".to_owned(),
                );
            },
            HeaderText::Text(value) => value,
        };
        let token = match extract_bearer_token(value.as_str()) {
            Some(token) => token,
            None => {
                return reject(GuardState::Malformed, 401, "Invalid bearer token".to_owned());
            },
        };
        match verify_jwt_token(token.as_str(), secret, now) {
            Err(e) => reject(GuardState::TokenRejected(e), 401, auth_error_message(e)),
            Ok(identity) => {
                let extension = AuthenticationExtension {
                    uid: identity.user_id,
                    username: identity.username,
                };
                if self.revalidate_user {
                    GuardOutcome::CheckUser(extension)
                } else {
                    GuardOutcome::Verified(extension)
                }
            },
        }
    }

    /// Decides on a request whose token was good, once its user has been looked up.
    pub fn user_checked(&self, extension: AuthenticationExtension, lookup: UserLookup) -> (outcome:
        GuardOutcome)
        ensures
            match lookup {
                UserLookup::Found => outcome.admits(extension.uid, extension.username@),
                UserLookup::NotFound => outcome.rejects(
                    GuardState::UnknownUser,
                    401,
                    "No user for this bearer token"@,
                ),
                UserLookup::Failed(cause) => outcome.rejects(GuardState::StoreFailed, 500, cause@),
            },
    {
        match lookup {
            UserLookup::Found => GuardOutcome::Verified(extension),
            UserLookup::NotFound => reject(
                GuardState::UnknownUser,
                401,
                "No user for this bearer token".to_owned(),
            ),
            UserLookup::Failed(cause) => reject(GuardState::StoreFailed, 500, cause),
        }
    }
}

} // verus!

use crate::auth::helpers::{
    get_signed_jwt_token, issued_claims, issued_identity, jwt_hs512_token, verified,
    IdentityView, TOKEN_LIFETIME,
};
use crate::database::models::recipe::text_of;
use crate::database::models::user::{email_pattern, username_pattern, User, UserView};
use crate::helpers::{is_alnum_whitespace, is_plain_words};
use crate::pattern::matches_pattern;
use crate::routes::error::AuthError;
use crate::routes::users::helpers::{is_strong_password, password_known};
use crate::text::{framed, i32_to_decimal, joined, signed_decimal};
use vstd::prelude::*;

verus! {

/// Whether the digest `digest` is one that `bcrypt` made of `password`: what `verify`
/// of the `bcrypt` crate answers, or `None` where it cannot read the digest.
pub uninterp spec fn bcrypt_accepts(password: Seq<char>, digest: Seq<char>) -> Option<bool>;

/// Calls `verify` of the `bcrypt` crate. Its answer depends on the password and the
/// digest alone and is known by name only.
#[verifier::external_body]
fn bcrypt_verify(password: &str, digest: &str) -> (r: Option<bool>)
    ensures
        r == bcrypt_accepts(password@, digest@),
{
    bcrypt::verify(password, digest).ok()
}

/// Calls `hash` of the `bcrypt` crate at its default cost. The digest is salted at
/// random, so every call gives another one; each is a digest that `verify` accepts
/// for the same password. Where the crate fails, its message comes back.
#[verifier::external_body]
fn bcrypt_hash(password: &str) -> (r: Result<String, String>)
    ensures
        r matches Ok(digest) ==> bcrypt_accepts(password@, digest@) == Some(true),
{
    bcrypt::hash(password, bcrypt::DEFAULT_COST).map_err(|e| e.to_string())
}

/// What anyone may see of a user.
#[derive(Debug)]
pub struct PublicUser {
    pub uid: i32,
    pub username: String,
    pub picture: Option<String>,
}

/// A `PublicUser` as plain values, as contracts speak of it.
pub struct PublicUserView {
    pub uid: i32,
    pub username: Seq<char>,
    pub picture: Option<Seq<char>>,
}

impl View for PublicUser {
    type V = PublicUserView;

    open spec fn view(&self) -> PublicUserView {
        PublicUserView { uid: self.uid, username: self.username@, picture: text_of(self.picture) }
    }
}

/// What a new user submits.
#[derive(Debug)]
pub struct RegisterPayload {
    pub username: String,
    pub email: String,
    pub password: String,
    pub confirm_password: String,
}

/// A `RegisterPayload` as plain values, as contracts speak of it.
pub struct RegisterPayloadView {
    pub username: Seq<char>,
    pub email: Seq<char>,
    pub password: Seq<char>,
    pub confirm_password: Seq<char>,
}

impl View for RegisterPayload {
    type V = RegisterPayloadView;

    open spec fn view(&self) -> RegisterPayloadView {
        RegisterPayloadView {
            username: self.username@,
            email: self.email@,
            password: self.password@,
            confirm_password: self.confirm_password@,
        }
    }
}

/// What a user submits to log in: a user name or an e-mail address, and a password.
#[derive(Debug)]
pub struct LoginPayload {
    pub identifier: String,
    pub password: String,
}

/// What a handler asks of the user table.
#[derive(Debug)]
pub enum UserRequest {
    /// List all users, in ascending order of their ids.
    ListAll,
    /// Find what anyone may see of the user with this id.
    FindPublic(i32),
    FindByName(String),
    FindByEmail(String),
    /// Insert a user with this name, address and password digest.
    Insert { username: String, email: String, digest: String },
}

/// An `UserRequest` as plain values, as contracts speak of it.
pub enum UserRequestView {
    ListAll,
    FindPublic(i32),
    FindByName(Seq<char>),
    FindByEmail(Seq<char>),
    Insert { username: Seq<char>, email: Seq<char>, digest: Seq<char> },
}

impl View for UserRequest {
    type V = UserRequestView;

    open spec fn view(&self) -> UserRequestView {
        match *self {
            UserRequest::ListAll => UserRequestView::ListAll,
            UserRequest::FindPublic(id) => UserRequestView::FindPublic(id),
            UserRequest::FindByName(name) => UserRequestView::FindByName(name@),
            UserRequest::FindByEmail(email) => UserRequestView::FindByEmail(email@),
            UserRequest::Insert { username, email, digest } => UserRequestView::Insert {
                username: username@,
                email: email@,
                digest: digest@,
            },
        }
    }
}

/// What the user table answers.
#[derive(Debug)]
pub enum UserReply {
    /// The store failed; the text says how.
    Failed(String),
    /// There is no such user.
    NotFound,
    Found(User),
    Public(PublicUser),
    Users(Vec<PublicUser>),
    /// The user was inserted under this id and name.
    Inserted(i32, String),
}

/// An `UserReply` as plain values, as contracts speak of it.
pub enum UserReplyView {
    Failed(Seq<char>),
    NotFound,
    Found(UserView),
    Public(PublicUserView),
    Users(Seq<PublicUserView>),
    Inserted(i32, Seq<char>),
}

impl View for UserReply {
    type V = UserReplyView;

    open spec fn view(&self) -> UserReplyView {
        match *self {
            UserReply::Failed(cause) => UserReplyView::Failed(cause@),
            UserReply::NotFound => UserReplyView::NotFound,
            UserReply::Found(user) => UserReplyView::Found(user@),
            UserReply::Public(user) => UserReplyView::Public(user@),
            UserReply::Users(users) => UserReplyView::Users(
                users@.map_values(|user: PublicUser| user@),
            ),
            UserReply::Inserted(uid, username) => UserReplyView::Inserted(uid, username@),
        }
    }
}

/// A request that is turned down: the status, and the two texts of the body.
#[derive(Debug)]
pub struct Refusal {
    pub status: u16,
    pub error: String,
    pub description: String,
}

/// A `Refusal` as plain values, as contracts speak of it.
pub struct RefusalView {
    pub status: u16,
    pub error: Seq<char>,
    pub description: Seq<char>,
}

impl View for Refusal {
    type V = RefusalView;

    open spec fn view(&self) -> RefusalView {
        RefusalView { status: self.status, error: self.error@, description: self.description@ }
    }
}

/// What a handler of the user routes hands back when it succeeds.
#[derive(Debug)]
pub enum UserOutcome {
    Users(Vec<PublicUser>),
    User(PublicUser),
    Registered { uid: i32, username: String },
    /// The token of a user who has logged in.
    Token(String),
}

/// An `UserOutcome` as plain values, as contracts speak of it.
pub enum UserOutcomeView {
    Users(Seq<PublicUserView>),
    User(PublicUserView),
    Registered { uid: i32, username: Seq<char> },
    Token(Seq<char>),
}

impl View for UserOutcome {
    type V = UserOutcomeView;

    open spec fn view(&self) -> UserOutcomeView {
        match *self {
            UserOutcome::Users(users) => UserOutcomeView::Users(
                users@.map_values(|user: PublicUser| user@),
            ),
            UserOutcome::User(user) => UserOutcomeView::User(user@),
            UserOutcome::Registered { uid, username } => UserOutcomeView::Registered {
                uid,
                username: username@,
            },
            UserOutcome::Token(token) => UserOutcomeView::Token(token@),
        }
    }
}

/// How far a handler of the user routes has come.
#[derive(Debug)]
pub enum UserSaga {
    /// All users are being listed.
    Listing,
    /// One user is being looked up by id.
    Showing { id: i32 },
    /// A registration waits to learn whether the name is taken.
    CheckingName { payload: RegisterPayload },
    /// A registration waits to learn whether the address is taken.
    CheckingEmail { payload: RegisterPayload },
    /// A registration waits for the new row.
    Inserting,
    /// A login waits for the user's row.
    Finding { by_email: bool, identifier: String, password: String },
}

/// An `UserSaga` as plain values, as contracts speak of it.
pub enum UserSagaView {
    Listing,
    Showing { id: i32 },
    CheckingName { payload: RegisterPayloadView },
    CheckingEmail { payload: RegisterPayloadView },
    Inserting,
    Finding { by_email: bool, identifier: Seq<char>, password: Seq<char> },
}

impl View for UserSaga {
    type V = UserSagaView;

    open spec fn view(&self) -> UserSagaView {
        match *self {
            UserSaga::Listing => UserSagaView::Listing,
            UserSaga::Showing { id } => UserSagaView::Showing { id },
            UserSaga::CheckingName { payload } => UserSagaView::CheckingName { payload: payload@ },
            UserSaga::CheckingEmail { payload } => UserSagaView::CheckingEmail {
                payload: payload@,
            },
            UserSaga::Inserting => UserSagaView::Inserting,
            UserSaga::Finding { by_email, identifier, password } => UserSagaView::Finding {
                by_email,
                identifier: identifier@,
                password: password@,
            },
        }
    }
}

/// Where a handler of the user routes stands after a decision.
#[derive(Debug)]
pub enum UserProgress {
    Ask(UserSaga, UserRequest),
    Finish(Result<UserOutcome, Refusal>),
}

/// An `UserProgress` as plain values, as contracts speak of it.
pub enum UserProgressView {
    Ask(UserSagaView, UserRequestView),
    Done(UserOutcomeView),
    Refused(RefusalView),
}

impl View for UserProgress {
    type V = UserProgressView;

    open spec fn view(&self) -> UserProgressView {
        match *self {
            UserProgress::Ask(saga, request) => UserProgressView::Ask(saga@, request@),
            UserProgress::Finish(Ok(outcome)) => UserProgressView::Done(outcome@),
            UserProgress::Finish(Err(refusal)) => UserProgressView::Refused(refusal@),
        }
    }
}

/// A request turned down with `status` and the texts `error` and `description`.
pub open spec fn refused(status: u16, error: Seq<char>, description: Seq<char>) -> UserProgressView {
    UserProgressView::Refused(RefusalView { status, error, description })
}

fn refuse(status: u16, error: &str, description: String) -> (r: UserProgress)
    ensures
        r@ == refused(status, error@, description@),
{
    UserProgress::Finish(Err(Refusal { status, error: error.to_owned(), description }))
}

/// The cause that a reply gives for a failure.
pub open spec fn failure_of(reply: UserReplyView) -> Seq<char> {
    match reply {
        UserReplyView::Failed(cause) => cause,
        _ => "Unexpected reply from the store"@,
    }
}

fn failure(reply: UserReply) -> (text: String)
    ensures
        text@ == failure_of(reply@),
{
    match reply {
        UserReply::Failed(cause) => cause,
        _ => "Unexpected reply from the store".to_owned(),
    }
}

/// The first decision on a registration: a name of the wrong form is turned down;
/// for any other, the table is asked whether the name is taken.
pub open spec fn register_begins(payload: RegisterPayloadView) -> UserProgressView {
    if !matches_pattern(username_pattern(), payload.username) {
        refused(
            400,
            "Invalid username"@,
            "The username: '"@ + payload.username
                + "' is invalid, it may only contain alphanumerical values and underscores"@,
        )
    } else {
        UserProgressView::Ask(
            UserSagaView::CheckingName { payload },
            UserRequestView::FindByName(payload.username),
        )
    }
}

/// What a registration comes to once name and address are known to be free, given
/// what hashing the password came to.
pub open spec fn register_concludes(
    payload: RegisterPayloadView,
    hashed: Result<Seq<char>, Seq<char>>,
) -> UserProgressView {
    if !is_strong_password(payload.password) {
        refused(
            400,
            "Invalid password"@,
            "Your password must contain at least 8 characters, a combination of uppercase and lowercase characters, at least one digit and at least one special character"@,
        )
    } else if payload.password != payload.confirm_password {
        refused(
            400,
            "Passwords do not match"@,
            "Your passwords do match, please enter a new password"@,
        )
    } else {
        match hashed {
            Err(cause) => refused(500, "Failed to hash password"@, cause),
            Ok(digest) => UserProgressView::Ask(
                UserSagaView::Inserting,
                UserRequestView::Insert {
                    username: payload.username,
                    email: payload.email,
                    digest,
                },
            ),
        }
    }
}

/// What a login comes to once the user's row is there: the password must be one
/// that the recorded digest accepts, and the token is the one issued at `now` for
/// the user under `secret`.
pub open spec fn login_concludes(
    user: UserView,
    password: Seq<char>,
    secret: Seq<char>,
    now: u64,
) -> UserProgressView {
    match bcrypt_accepts(password, user.password) {
        None => refused(
            400,
            "Failed to verify password"@,
            "Failed to verify the password provided, please contact support"@,
        ),
        Some(false) => refused(
            400,
            "Incorrect password"@,
            "The password provided was incorrect, please try again"@,
        ),
        Some(true) => UserProgressView::Done(
            UserOutcomeView::Token(
                jwt_hs512_token(secret, issued_claims(user.uid, user.username, now)),
            ),
        ),
    }
}

/// The next decision of a handler of the user routes, once the table has answered.
/// `hashed` is what hashing the password of a registration came to; it counts only
/// where a registration gets as far as needing it. `secret` and `now` are what a
/// login signs its token with.
pub open spec fn user_next(
    saga: UserSagaView,
    reply: UserReplyView,
    hashed: Result<Seq<char>, Seq<char>>,
    secret: Seq<char>,
    now: u64,
) -> UserProgressView {
    match saga {
        UserSagaView::Listing => match reply {
            UserReplyView::Users(users) => UserProgressView::Done(UserOutcomeView::Users(users)),
            _ => refused(500, "Unable to get all users"@, failure_of(reply)),
        },
        UserSagaView::Showing { id } => match reply {
            UserReplyView::Public(user) => UserProgressView::Done(UserOutcomeView::User(user)),
            UserReplyView::NotFound => refused(
                404,
                "No user found"@,
                "Couldn't find user with the id: "@ + signed_decimal(id as int),
            ),
            _ => refused(500, "Unable to get user"@, failure_of(reply)),
        },
        UserSagaView::CheckingName { payload } => match reply {
            UserReplyView::Found(_) => refused(
                409,
                "Username already taken"@,
                "The username: '"@ + payload.username + "' is already taken"@,
            ),
            _ => if !matches_pattern(email_pattern(), payload.email) {
                refused(
                    400,
                    "Invalid email"@,
                    "The email: '"@ + payload.email
                        + "' is invalid, please use a valid email format"@,
                )
            } else {
                UserProgressView::Ask(
                    UserSagaView::CheckingEmail { payload },
                    UserRequestView::FindByEmail(payload.email),
                )
            },
        },
        UserSagaView::CheckingEmail { payload } => match reply {
            UserReplyView::Found(_) => refused(
                409,
                "Email already taken"@,
                "The email: '"@ + payload.email + "' is already taken"@,
            ),
            _ => register_concludes(payload, hashed),
        },
        UserSagaView::Inserting => match reply {
            UserReplyView::Inserted(uid, username) => UserProgressView::Done(
                UserOutcomeView::Registered { uid, username },
            ),
            _ => refused(500, "Register user failed"@, failure_of(reply)),
        },
        UserSagaView::Finding { by_email, identifier, password } => match reply {
            UserReplyView::Found(user) => login_concludes(user, password, secret, now),
            _ => refused(
                400,
                "No user"@,
                (if by_email {
                    "There is no user with the email: "@
                } else {
                    "There is no user with the username: "@
                }) + identifier,
            ),
        },
    }
}

/// Begins the listing of all users.
pub fn get_all_users() -> (r: UserProgress)
    ensures
        r@ == UserProgressView::Ask(UserSagaView::Listing, UserRequestView::ListAll),
{
    UserProgress::Ask(UserSaga::Listing, UserRequest::ListAll)
}

/// Begins the showing of the user `id`.
pub fn get_user_by_id(id: i32) -> (r: UserProgress)
    ensures
        r@ == UserProgressView::Ask(UserSagaView::Showing { id }, UserRequestView::FindPublic(id)),
{
    UserProgress::Ask(UserSaga::Showing { id }, UserRequest::FindPublic(id))
}

/// Begins a registration.
pub fn register_user(payload: RegisterPayload) -> (r: UserProgress)
    ensures
        r@ == register_begins(payload@),
{
    if !User::username_is_valid(payload.username.as_str()) {
        return refuse(
            400,
            "Invalid username",
            framed(
                "The username: '",
                payload.username.as_str(),
                "' is invalid, it may only contain alphanumerical values and underscores",
            ),
        );
    }
    let request = UserRequest::FindByName(payload.username.clone());
    UserProgress::Ask(UserSaga::CheckingName { payload }, request)
}

/// The first decision on a login: an identifier in the form of an e-mail address is
/// looked up as one; any other must be made of letters, digits and whitespace, and
/// is looked up as a user name.
pub open spec fn login_begins(identifier: Seq<char>, password: Seq<char>) -> UserProgressView {
    if matches_pattern(email_pattern(), identifier) {
        UserProgressView::Ask(
            UserSagaView::Finding { by_email: true, identifier, password },
            UserRequestView::FindByEmail(identifier),
        )
    } else if !is_plain_words(identifier) {
        refused(
            400,
            "The identifier is invalid"@,
            "Please provide a username(only alphanumerical) or email"@,
        )
    } else {
        UserProgressView::Ask(
            UserSagaView::Finding { by_email: false, identifier, password },
            UserRequestView::FindByName(identifier),
        )
    }
}

/// Begins a login.
pub fn login_user(payload: LoginPayload) -> (r: UserProgress)
    ensures
        r@ == login_begins(payload.identifier@, payload.password@),
{
    if User::email_is_valid(payload.identifier.as_str()) {
        let request = UserRequest::FindByEmail(payload.identifier.clone());
        return UserProgress::Ask(
            UserSaga::Finding {
                by_email: true,
                identifier: payload.identifier,
                password: payload.password,
            },
            request,
        );
    }
    if !is_alnum_whitespace(payload.identifier.as_str()) {
        return refuse(
            400,
            "The identifier is invalid",
            "Please provide a username(only alphanumerical) or email".to_owned(),
        );
    }
    let request = UserRequest::FindByName(payload.identifier.clone());
    UserProgress::Ask(
        UserSaga::Finding {
            by_email: false,
            identifier: payload.identifier,
            password: payload.password,
        },
        request,
    )
}

/// The view of what hashing a password came to.
pub open spec fn hashing(hashed: Result<String, String>) -> Result<Seq<char>, Seq<char>> {
    match hashed {
        Ok(digest) => Ok(digest@),
        Err(cause) => Err(cause@),
    }
}

/// Concludes a registration whose name and address are free, given what hashing
/// the password came to. Of the ASCII characters of the password it is known
/// afterwards which are whitespace, lower case and upper case.
pub fn conclude_registration(payload: RegisterPayload, hashed: Result<String, String>) -> (r:
    UserProgress)
    ensures
        r@ == register_concludes(payload@, hashing(hashed)),
        password_known(payload.password@),
{
    if !User::is_password_valid(payload.password.as_str()) {
        return refuse(
            400,
            "Invalid password",
            "Your password must contain at least 8 characters, a combination of uppercase and lowercase characters, at least one digit and at least one special character".to_owned(),
        );
    }
    if payload.password != payload.confirm_password {
        return refuse(
            400,
            "Passwords do not match",
            "Your passwords do match, please enter a new password".to_owned(),
        );
    }
    match hashed {
        Err(cause) => refuse(500, "Failed to hash password", cause),
        Ok(digest) => UserProgress::Ask(
            UserSaga::Inserting,
            UserRequest::Insert { username: payload.username, email: payload.email, digest },
        ),
    }
}

/// Whether `progress` is what a registration with the payload `payload` comes to
/// once name and address are known to be free, `hashed` being what hashing the
/// password came to: a digest is one that accepts the password.
pub open spec fn concludes_with(
    payload: RegisterPayloadView,
    hashed: Result<Seq<char>, Seq<char>>,
    progress: UserProgressView,
) -> bool {
    &&& hashed matches Ok(digest) ==> bcrypt_accepts(payload.password, digest) == Some(true)
    &&& progress == register_concludes(payload, hashed)
}

/// Vets the password of a registration and, if it may stand, hashes it and asks for
/// the new row. The digest is one that accepts the password.
fn finish_registration(payload: RegisterPayload) -> (r: UserProgress)
    ensures
        exists|hashed: Result<Seq<char>, Seq<char>>| concludes_with(payload@, hashed, r@),
{
    let hashed = if User::is_password_valid(payload.password.as_str()) && payload.password
        == payload.confirm_password {
        bcrypt_hash(payload.password.as_str())
    } else {
        Err(String::new())
    };
    let ghost outcome = hashing(hashed);
    let r = conclude_registration(payload, hashed);
    proof {
        assert(concludes_with(payload@, outcome, r@));
    }
    r
}

/// What a login is turned down with, given what checking the password came to:
/// nothing, where the password was accepted.
pub open spec fn password_refusal(accepted: Option<bool>) -> Option<RefusalView> {
    match accepted {
        None => Some(
            RefusalView {
                status: 400,
                error: "Failed to verify password"@,
                description: "Failed to verify the password provided, please contact support"@,
            },
        ),
        Some(false) => Some(
            RefusalView {
                status: 400,
                error: "Incorrect password"@,
                description: "The password provided was incorrect, please try again"@,
            },
        ),
        Some(true) => None,
    }
}

/// Judges a login by what checking the password came to.
pub fn password_verdict(accepted: Option<bool>) -> (r: Result<(), Refusal>)
    ensures
        match password_refusal(accepted) {
            Some(refusal) => r matches Err(e) && e@ == refusal,
            None => r is Ok,
        },
{
    match accepted {
        None => Err(
            Refusal {
                status: 400,
                error: "Failed to verify password".to_owned(),
                description: "Failed to verify the password provided, please contact support".to_owned(),
            },
        ),
        Some(false) => Err(
            Refusal {
                status: 400,
                error: "Incorrect password".to_owned(),
                description: "The password provided was incorrect, please try again".to_owned(),
            },
        ),
        Some(true) => Ok(()),
    }
}

/// Concludes a login for the row `user`: checks the password against the recorded
/// digest and issues the token.
fn finish_login(user: User, password: String, secret: &str, now: u64) -> (r: UserProgress)
    requires
        now + TOKEN_LIFETIME <= u64::MAX,
    ensures
        r@ == login_concludes(user@, password@, secret@, now),
        r matches UserProgress::Finish(Ok(UserOutcome::Token(token))) ==> forall|at: u64|
            at <= now + TOKEN_LIFETIME ==> #[trigger] verified(token@, secret@, at) == Ok::<
                IdentityView,
                AuthError,
            >(issued_identity(user.uid, user.username@, now)),
{
    match password_verdict(bcrypt_verify(password.as_str(), user.password.as_str())) {
        Err(refusal) => UserProgress::Finish(Err(refusal)),
        Ok(()) => UserProgress::Finish(
            Ok(
                UserOutcome::Token(
                    get_signed_jwt_token(user.uid, user.username.as_str(), secret, now),
                ),
            ),
        ),
    }
}

/// A registration goes through where nothing stands in its way: with a name and an
/// address of the right form that nobody has taken, and a strong password that was
/// confirmed, the table is asked for the name, for the address, and for the new row
/// with the digest that hashing gave; the registration ends with the id and the name
/// under which the row was inserted. Where hashing fails, the registration ends with
/// a 500 that gives the cause, and no row is asked for.
pub proof fn law_registration_goes_through(
    payload: RegisterPayloadView,
    digest: Seq<char>,
    cause: Seq<char>,
    uid: i32,
    username: Seq<char>,
    secret: Seq<char>,
    now: u64,
)
    requires
        matches_pattern(username_pattern(), payload.username),
        matches_pattern(email_pattern(), payload.email),
        is_strong_password(payload.password),
        payload.password == payload.confirm_password,
    ensures
        register_begins(payload) == UserProgressView::Ask(
            UserSagaView::CheckingName { payload },
            UserRequestView::FindByName(payload.username),
        ),
        user_next(
            UserSagaView::CheckingName { payload },
            UserReplyView::NotFound,
            Ok(digest),
            secret,
            now,
        ) == UserProgressView::Ask(
            UserSagaView::CheckingEmail { payload },
            UserRequestView::FindByEmail(payload.email),
        ),
        user_next(
            UserSagaView::CheckingEmail { payload },
            UserReplyView::NotFound,
            Ok(digest),
            secret,
            now,
        ) == UserProgressView::Ask(
            UserSagaView::Inserting,
            UserRequestView::Insert { username: payload.username, email: payload.email, digest },
        ),
        user_next(
            UserSagaView::Inserting,
            UserReplyView::Inserted(uid, username),
            Ok(digest),
            secret,
            now,
        ) == UserProgressView::Done(UserOutcomeView::Registered { uid, username }),
        user_next(
            UserSagaView::CheckingEmail { payload },
            UserReplyView::NotFound,
            Err(cause),
            secret,
            now,
        ) == refused(500, "Failed to hash password"@, cause),
{
}

/// A user who registered can log in. Where the identifier has the form of a user
/// name, the row found for it records a digest that accepts the password, the login
/// asks for the row by that name and ends with the token issued for the user of the
/// row.
pub proof fn law_registered_password_logs_in(
    identifier: Seq<char>,
    user: UserView,
    password: Seq<char>,
    hashed: Result<Seq<char>, Seq<char>>,
    secret: Seq<char>,
    now: u64,
)
    requires
        !matches_pattern(email_pattern(), identifier),
        is_plain_words(identifier),
        bcrypt_accepts(password, user.password) == Some(true),
    ensures
        login_begins(identifier, password) == UserProgressView::Ask(
            UserSagaView::Finding { by_email: false, identifier, password },
            UserRequestView::FindByName(identifier),
        ),
        user_next(
            UserSagaView::Finding { by_email: false, identifier, password },
            UserReplyView::Found(user),
            hashed,
            secret,
            now,
        ) == UserProgressView::Done(
            UserOutcomeView::Token(
                jwt_hs512_token(secret, issued_claims(user.uid, user.username, now)),
            ),
        ),
{
}

/// Whether `hashed` may be what hashing the password of the registration `saga` came
/// to: a digest is one that accepts the password.
pub open spec fn digest_fits(saga: UserSagaView, hashed: Result<Seq<char>, Seq<char>>) -> bool {
    saga matches UserSagaView::CheckingEmail { payload } ==> (hashed matches Ok(digest)
        ==> bcrypt_accepts(payload.password, digest) == Some(true))
}

/// Whether a token that `progress` hands out in answer to the row in `reply` stands
/// for the user of that row, at any time until it expires.
pub open spec fn token_stands_for(
    reply: UserReplyView,
    progress: UserProgressView,
    secret: Seq<char>,
    now: u64,
) -> bool {
    reply matches UserReplyView::Found(user) ==> (progress matches UserProgressView::Done(
        UserOutcomeView::Token(token),
    ) ==> forall|at: u64|
        at <= now + TOKEN_LIFETIME ==> #[trigger] verified(token, secret, at) == Ok::<
            IdentityView,
            AuthError,
        >(issued_identity(user.uid, user.username, now)))
}

impl UserSaga {
    /// Goes on with a handler of the user routes, now that the table has answered the
    /// last request. `secret` is the secret that tokens are signed with, and `now` the
    /// time in seconds since the epoch; only a login makes use of the two, and only a
    /// login needs the time to be one to which the lifetime of a token can be added. A
    /// token that a login hands out verifies, under the same secret and until it
    /// expires, as the user who logged in.
    pub fn step(self, reply: UserReply, secret: &str, now: u64) -> (r: UserProgress)
        requires
            self is Finding ==> now + TOKEN_LIFETIME <= u64::MAX,
        ensures
            exists|hashed: Result<Seq<char>, Seq<char>>|
                #![trigger user_next(self@, reply@, hashed, secret@, now)]
                digest_fits(self@, hashed) && r@ == user_next(self@, reply@, hashed, secret@, now),
            self is Finding ==> token_stands_for(reply@, r@, secret@, now),
    {
        let ghost mut hashed = Err::<Seq<char>, Seq<char>>(Seq::empty());
        let ghost before = self@;
        let ghost answer = reply@;
        let r = match self {
            UserSaga::Listing => match reply {
                UserReply::Users(users) => UserProgress::Finish(Ok(UserOutcome::Users(users))),
                other => refuse(500, "Unable to get all users", failure(other)),
            },
            UserSaga::Showing { id } => match reply {
                UserReply::Public(user) => UserProgress::Finish(Ok(UserOutcome::User(user))),
                UserReply::NotFound => refuse(
                    404,
                    "No user found",
                    joined("Couldn't find user with the id: ", i32_to_decimal(id).as_str()),
                ),
                other => refuse(500, "Unable to get user", failure(other)),
            },
            UserSaga::CheckingName { payload } => match reply {
                UserReply::Found(_) => refuse(
                    409,
                    "Username already taken",
                    framed("The username: '", payload.username.as_str(), "' is already taken"),
                ),
                _ => {
                    if !User::email_is_valid(payload.email.as_str()) {
                        refuse(
                            400,
                            "Invalid email",
                            framed(
                                "The email: '",
                                payload.email.as_str(),
                                "' is invalid, please use a valid email format",
                            ),
                        )
                    } else {
                        let request = UserRequest::FindByEmail(payload.email.clone());
                        UserProgress::Ask(UserSaga::CheckingEmail { payload }, request)
                    }
                },
            },
            UserSaga::CheckingEmail { payload } => match reply {
                UserReply::Found(_) => refuse(
                    409,
                    "Email already taken",
                    framed("The email: '", payload.email.as_str(), "' is already taken"),
                ),
                _ => {
                    let r = finish_registration(payload);
                    proof {
                        hashed = choose|hashed: Result<Seq<char>, Seq<char>>|
                            concludes_with(payload@, hashed, r@);
                    }
                    r
                },
            },
            UserSaga::Inserting => match reply {
                UserReply::Inserted(uid, username) => UserProgress::Finish(
                    Ok(UserOutcome::Registered { uid, username }),
                ),
                other => refuse(500, "Register user failed", failure(other)),
            },
            UserSaga::Finding { by_email, identifier, password } => match reply {
                UserReply::Found(user) => finish_login(user, password, secret, now),
                _ => refuse(
                    400,
                    "No user",
                    joined(
                        if by_email {
                            "There is no user with the email: "
                        } else {
                            "There is no user with the username: "
                        },
                        identifier.as_str(),
                    ),
                ),
            },
        };
        proof {
            assert(digest_fits(before, hashed));
            assert(r@ == user_next(before, answer, hashed, secret@, now));
        }
        r
    }
}

} // verus!

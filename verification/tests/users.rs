use recipe_backend::auth::helpers::verify_jwt_token;
use recipe_backend::database::models::user::User;
use recipe_backend::extractors::auth::Authorized;
use recipe_backend::middleware::auth::{Authentication, GuardOutcome, HeaderText};
use recipe_backend::recipe_io::{RecipeFileJson, RecipeStep};
use recipe_backend::routes::recipes::helpers::CreateRecipeForm;
use recipe_backend::routes::recipes::services::{create_recipe, get_recipe, Progress};
use recipe_backend::routes::recipes::store::{StoreReply, StoreRequest};
use recipe_backend::routes::users::services::{
    conclude_registration, get_all_users, get_user_by_id, login_user, password_verdict,
    register_user, LoginPayload, PublicUser, Refusal, RegisterPayload, UserOutcome, UserProgress,
    UserReply, UserRequest, UserSaga,
};

const SECRET: &str = "a secret for tests";
const NOW: u64 = 1_700_000_000;

/// The user table, kept in memory.
struct Table {
    users: Vec<User>,
    fails: bool,
}

fn perform(table: &mut Table, request: UserRequest) -> UserReply {
    if table.fails {
        return UserReply::Failed("connection refused".to_string());
    }
    let copy = |u: &User| User {
        uid: u.uid,
        username: u.username.clone(),
        email: u.email.clone(),
        password: u.password.clone(),
    };
    let public =
        |u: &User| PublicUser { uid: u.uid, username: u.username.clone(), picture: None };
    match request {
        UserRequest::ListAll => UserReply::Users(table.users.iter().map(public).collect()),
        UserRequest::FindPublic(id) => match table.users.iter().find(|u| u.uid == id) {
            Some(u) => UserReply::Public(public(u)),
            None => UserReply::NotFound,
        },
        UserRequest::FindByName(name) => match table.users.iter().find(|u| u.username == name) {
            Some(u) => UserReply::Found(copy(u)),
            None => UserReply::NotFound,
        },
        UserRequest::FindByEmail(email) => match table.users.iter().find(|u| u.email == email) {
            Some(u) => UserReply::Found(copy(u)),
            None => UserReply::NotFound,
        },
        UserRequest::Insert { username, email, digest } => {
            let uid = table.users.len() as i32 + 1;
            table.users.push(User { uid, username: username.clone(), email, password: digest });
            UserReply::Inserted(uid, username)
        }
    }
}

fn run(table: &mut Table, mut progress: UserProgress) -> Result<UserOutcome, Refusal> {
    loop {
        match progress {
            UserProgress::Finish(result) => return result,
            UserProgress::Ask(saga, request) => {
                let reply = perform(table, request);
                progress = saga.step(reply, SECRET, NOW);
            }
        }
    }
}

fn registration(username: &str, email: &str, password: &str, confirm: &str) -> RegisterPayload {
    RegisterPayload {
        username: username.to_string(),
        email: email.to_string(),
        password: password.to_string(),
        confirm_password: confirm.to_string(),
    }
}

fn login(identifier: &str, password: &str) -> LoginPayload {
    LoginPayload { identifier: identifier.to_string(), password: password.to_string() }
}

fn refusal(result: Result<UserOutcome, Refusal>) -> (u16, String, String) {
    match result {
        Err(r) => (r.status, r.error, r.description),
        Ok(outcome) => panic!("not refused: {:?}", outcome),
    }
}

fn token(result: Result<UserOutcome, Refusal>) -> String {
    match result {
        Ok(UserOutcome::Token(token)) => token,
        other => panic!("no token: {:?}", other),
    }
}

#[test]
fn alice_registers_logs_in_and_posts_a_soup() {
    let mut table = Table { users: Vec::new(), fails: false };
    let registered = run(
        &mut table,
        register_user(registration("alice", "alice@example.com", "Str0ng!Pass", "Str0ng!Pass")),
    );
    match registered {
        Ok(UserOutcome::Registered { uid, username }) => {
            assert_eq!(uid, 1);
            assert_eq!(username, "alice");
        }
        other => panic!("not registered: {:?}", other),
    }
    assert_ne!(table.users[0].password, "Str0ng!Pass");
    assert!(table.users[0].password.starts_with("$2"));

    let token = token(run(&mut table, login_user(login("alice", "Str0ng!Pass"))));
    let identity = verify_jwt_token(&token, SECRET, NOW).expect("an identity");
    assert_eq!(identity.username, "alice");
    assert_eq!(identity.user_id, 1);

    let guard = Authentication { revalidate_user: false }.new_transform();
    let extension = match guard.call(&HeaderText::Text(format!("Bearer {}", token)), SECRET, NOW) {
        GuardOutcome::Verified(extension) => extension,
        other => panic!("not verified: {:?}", other),
    };
    let soup = RecipeFileJson {
        title: "Soup".to_string(),
        description: "Warm soup".to_string(),
        ingredients: Vec::new(),
        steps: vec![RecipeStep {
            order: 1,
            step_details: "Boil water".to_string(),
            measurements: None,
        }],
    };
    let form = CreateRecipeForm { thumbnail: None, recipe: Some(soup) };
    let (saga, written_as, written) =
        match create_recipe(Authorized::from_request(Some(&extension)), form) {
            Progress::Ask(saga, StoreRequest::WriteDocument { document_ref, document }) => {
                (saga, document_ref, document)
            }
            other => panic!("no write asked for: {:?}", other),
        };
    assert!(written_as.starts_with("1-"));
    let saga = match saga.step(StoreReply::Done) {
        Progress::Ask(saga, StoreRequest::InsertRecipe { document_ref, owner }) => {
            assert_eq!(document_ref, written_as);
            assert_eq!(owner, 1);
            saga
        }
        other => panic!("no insert asked for: {:?}", other),
    };
    let id = match saga.step(StoreReply::Inserted(12)) {
        Progress::Finish(Ok(id)) => id,
        other => panic!("no id: {:?}", other),
    };
    assert_eq!(id, 12);

    let saga = match get_recipe(id) {
        Progress::Ask(saga, StoreRequest::LoadRecipe { recipe_id }) => {
            assert_eq!(recipe_id, 12);
            saga
        }
        other => panic!("no load asked for: {:?}", other),
    };
    let row = recipe_backend::database::models::recipe::RecipeWithPoster {
        poster: recipe_backend::database::models::recipe::Poster {
            uid: 1,
            username: "alice".to_string(),
            picture: None,
        },
        id: 12,
        recipe_file_path: written_as.clone(),
        date_created: NOW as i64,
        thumbnail_path: None,
    };
    let saga = match saga.step(StoreReply::Recipe(row)) {
        Progress::Ask(saga, StoreRequest::ReadDocument { document_ref }) => {
            assert_eq!(document_ref, written_as);
            saga
        }
        other => panic!("no read asked for: {:?}", other),
    };
    match saga.step(StoreReply::Document(written)) {
        Progress::Finish(Ok(shown)) => {
            assert_eq!(shown.id, 12);
            assert_eq!(shown.recipe.title, "Soup");
            assert_eq!(shown.recipe.description, "Warm soup");
            assert_eq!(shown.recipe.steps.len(), 1);
            assert_eq!(shown.recipe.steps[0].order, 1);
            assert_eq!(shown.recipe.steps[0].step_details, "Boil water");
        }
        other => panic!("nothing shown: {:?}", other),
    }
}

#[test]
fn a_wrong_password_does_not_log_in() {
    let mut table = Table { users: Vec::new(), fails: false };
    run(
        &mut table,
        register_user(registration("alice", "alice@example.com", "Str0ng!Pass", "Str0ng!Pass")),
    )
    .expect("registered");
    let (status, error, _) = refusal(run(&mut table, login_user(login("alice", "Str0ng!Past"))));
    assert_eq!(status, 400);
    assert_eq!(error, "Incorrect password");
}

#[test]
fn a_login_by_email_finds_the_user() {
    let digest = match conclude_registration(
        registration("alice", "alice@example.com", "Str0ng!Pass", "Str0ng!Pass"),
        Ok("a digest".to_string()),
    ) {
        UserProgress::Ask(_, UserRequest::Insert { digest, .. }) => digest,
        other => panic!("no insert asked for: {:?}", other),
    };
    assert_eq!(digest, "a digest");
    match login_user(login("alice@example.com", "x")) {
        UserProgress::Ask(
            UserSaga::Finding { by_email, identifier, password },
            UserRequest::FindByEmail(email),
        ) => {
            assert!(by_email);
            assert_eq!(identifier, "alice@example.com");
            assert_eq!(password, "x");
            assert_eq!(email, "alice@example.com");
        }
        other => panic!("no lookup by email: {:?}", other),
    }
    match login_user(login("alice", "x")) {
        UserProgress::Ask(UserSaga::Finding { by_email, .. }, UserRequest::FindByName(name)) => {
            assert!(!by_email);
            assert_eq!(name, "alice");
        }
        other => panic!("no lookup by name: {:?}", other),
    }
}

#[test]
fn a_digest_that_is_none_cannot_be_verified() {
    let mut table = Table {
        users: vec![User {
            uid: 1,
            username: "alice".to_string(),
            email: "alice@example.com".to_string(),
            password: "not a digest".to_string(),
        }],
        fails: false,
    };
    let (status, error, description) =
        refusal(run(&mut table, login_user(login("alice", "Str0ng!Pass"))));
    assert_eq!(status, 400);
    assert_eq!(error, "Failed to verify password");
    assert_eq!(description, "Failed to verify the password provided, please contact support");
}

#[test]
fn a_known_digest_accepts_its_password_only() {
    // A digest of "correctbatteryhorsestapler" at cost 4.
    let digest = "$2b$04$EGdrhbKUv8Oc9vGiXX0HQOxSg445d458Muh7DAHskb6QbtCvdxcie";
    let mut table = Table {
        users: vec![User {
            uid: 5,
            username: "carol".to_string(),
            email: "carol@example.com".to_string(),
            password: digest.to_string(),
        }],
        fails: false,
    };
    let good = run(&mut table, login_user(login("carol", "correctbatteryhorsestapler")));
    let bad = run(&mut table, login_user(login("carol", "correctbatteryhorsestaple")));
    let identity = verify_jwt_token(&token(good), SECRET, NOW).expect("an identity");
    assert_eq!(identity.user_id, 5);
    assert_eq!(identity.username, "carol");
    assert_eq!(refusal(bad).1, "Incorrect password");
}

#[test]
fn a_login_of_nobody_is_refused() {
    let mut table = Table { users: Vec::new(), fails: false };
    let (status, error, description) = refusal(run(&mut table, login_user(login("alice", "x"))));
    assert_eq!(status, 400);
    assert_eq!(error, "No user");
    assert_eq!(description, "There is no user with the username: alice");
    let (_, _, description) =
        refusal(run(&mut table, login_user(login("alice@example.com", "x"))));
    assert_eq!(description, "There is no user with the email: alice@example.com");
    table.fails = true;
    assert_eq!(refusal(run(&mut table, login_user(login("alice", "x")))).1, "No user");
}

#[test]
fn an_identifier_that_is_neither_name_nor_address_is_refused() {
    let mut table = Table { users: Vec::new(), fails: false };
    let (status, error, description) = refusal(run(&mut table, login_user(login("al!ce", "x"))));
    assert_eq!(status, 400);
    assert_eq!(error, "The identifier is invalid");
    assert_eq!(description, "Please provide a username(only alphanumerical) or email");
    assert_eq!(refusal(run(&mut table, login_user(login("", "x")))).0, 400);
}

#[test]
fn a_user_name_of_the_wrong_form_is_refused() {
    let mut table = Table { users: Vec::new(), fails: false };
    let (status, error, description) = refusal(run(
        &mut table,
        register_user(registration("al ice", "alice@example.com", "Str0ng!Pass", "Str0ng!Pass")),
    ));
    assert_eq!(status, 400);
    assert_eq!(error, "Invalid username");
    assert_eq!(
        description,
        "The username: 'al ice' is invalid, it may only contain alphanumerical values and underscores"
    );
    assert!(table.users.is_empty());
}

#[test]
fn a_taken_name_or_address_is_a_conflict() {
    let mut table = Table { users: Vec::new(), fails: false };
    run(
        &mut table,
        register_user(registration("alice", "alice@example.com", "Str0ng!Pass", "Str0ng!Pass")),
    )
    .expect("registered");
    let (status, error, description) = refusal(run(
        &mut table,
        register_user(registration("alice", "other@example.com", "Str0ng!Pass", "Str0ng!Pass")),
    ));
    assert_eq!(status, 409);
    assert_eq!(error, "Username already taken");
    assert_eq!(description, "The username: 'alice' is already taken");
    let (status, error, description) = refusal(run(
        &mut table,
        register_user(registration("alicia", "alice@example.com", "Str0ng!Pass", "Str0ng!Pass")),
    ));
    assert_eq!(status, 409);
    assert_eq!(error, "Email already taken");
    assert_eq!(description, "The email: 'alice@example.com' is already taken");
    assert_eq!(table.users.len(), 1);
}

#[test]
fn an_address_of_the_wrong_form_is_refused() {
    let mut table = Table { users: Vec::new(), fails: false };
    let (status, error, description) = refusal(run(
        &mut table,
        register_user(registration("alice", "alice at example", "Str0ng!Pass", "Str0ng!Pass")),
    ));
    assert_eq!(status, 400);
    assert_eq!(error, "Invalid email");
    assert_eq!(
        description,
        "The email: 'alice at example' is invalid, please use a valid email format"
    );
}

#[test]
fn a_weak_or_mistyped_password_is_refused() {
    let mut table = Table { users: Vec::new(), fails: false };
    let (status, error, _) = refusal(run(
        &mut table,
        register_user(registration("alice", "alice@example.com", "weak", "weak")),
    ));
    assert_eq!(status, 400);
    assert_eq!(error, "Invalid password");
    let (status, error, _) = refusal(run(
        &mut table,
        register_user(registration("alice", "alice@example.com", "Str0ng!Pass", "Str0ng!Pas")),
    ));
    assert_eq!(status, 400);
    assert_eq!(error, "Passwords do not match");
    assert!(table.users.is_empty());
}

#[test]
fn a_password_that_cannot_be_hashed_ends_the_registration() {
    let result = conclude_registration(
        registration("alice", "alice@example.com", "Str0ng!Pass", "Str0ng!Pass"),
        Err("no randomness".to_string()),
    );
    match result {
        UserProgress::Finish(Err(r)) => {
            assert_eq!(r.status, 500);
            assert_eq!(r.error, "Failed to hash password");
            assert_eq!(r.description, "no randomness");
        }
        other => panic!("not refused: {:?}", other),
    }
}

#[test]
fn the_password_is_judged_before_the_digest_is_looked_at() {
    let result = conclude_registration(
        registration("alice", "alice@example.com", "weak", "weak"),
        Ok("a digest".to_string()),
    );
    match result {
        UserProgress::Finish(Err(r)) => assert_eq!(r.error, "Invalid password"),
        other => panic!("not refused: {:?}", other),
    }
}

#[test]
fn a_row_that_cannot_be_inserted_ends_the_registration() {
    match UserSaga::Inserting.step(UserReply::Failed("duplicate key".to_string()), SECRET, NOW) {
        UserProgress::Finish(Err(r)) => {
            assert_eq!(r.status, 500);
            assert_eq!(r.error, "Register user failed");
            assert_eq!(r.description, "duplicate key");
        }
        other => panic!("not refused: {:?}", other),
    }
}

#[test]
fn the_verdict_on_a_password() {
    assert!(password_verdict(Some(true)).is_ok());
    let wrong = password_verdict(Some(false)).unwrap_err();
    assert_eq!((wrong.status, wrong.error.as_str()), (400, "Incorrect password"));
    let unreadable = password_verdict(None).unwrap_err();
    assert_eq!((unreadable.status, unreadable.error.as_str()), (400, "Failed to verify password"));
}

#[test]
fn only_a_login_needs_a_time_to_which_the_lifetime_can_be_added() {
    match UserSaga::Inserting.step(UserReply::Inserted(3, "carol".to_string()), SECRET, u64::MAX) {
        UserProgress::Finish(Ok(UserOutcome::Registered { uid, username })) => {
            assert_eq!(uid, 3);
            assert_eq!(username, "carol");
        }
        other => panic!("not registered: {:?}", other),
    }
    match UserSaga::Listing.step(UserReply::Users(Vec::new()), SECRET, u64::MAX) {
        UserProgress::Finish(Ok(UserOutcome::Users(users))) => assert!(users.is_empty()),
        other => panic!("no list: {:?}", other),
    }
}

#[test]
fn all_users_are_listed() {
    let mut table = Table {
        users: vec![
            User { uid: 1, username: "alice".into(), email: "a@example.com".into(), password: "x".into() },
            User { uid: 2, username: "bob".into(), email: "b@example.com".into(), password: "y".into() },
        ],
        fails: false,
    };
    match run(&mut table, get_all_users()) {
        Ok(UserOutcome::Users(users)) => {
            assert_eq!(users.len(), 2);
            assert_eq!(users[0].uid, 1);
            assert_eq!(users[1].username, "bob");
        }
        other => panic!("no list: {:?}", other),
    }
    table.fails = true;
    let (status, error, description) = refusal(run(&mut table, get_all_users()));
    assert_eq!(status, 500);
    assert_eq!(error, "Unable to get all users");
    assert_eq!(description, "connection refused");
}

#[test]
fn one_user_is_shown_by_id() {
    let mut table = Table {
        users: vec![User {
            uid: 1,
            username: "alice".into(),
            email: "a@example.com".into(),
            password: "x".into(),
        }],
        fails: false,
    };
    match run(&mut table, get_user_by_id(1)) {
        Ok(UserOutcome::User(user)) => assert_eq!(user.username, "alice"),
        other => panic!("no user: {:?}", other),
    }
    let (status, error, description) = refusal(run(&mut table, get_user_by_id(-2)));
    assert_eq!(status, 404);
    assert_eq!(error, "No user found");
    assert_eq!(description, "Couldn't find user with the id: -2");
    table.fails = true;
    assert_eq!(refusal(run(&mut table, get_user_by_id(1))).0, 500);
}

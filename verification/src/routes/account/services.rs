use crate::database::models::profile_picture::{ProfilePicture, ProfilePictureView};
use crate::database::models::recipe::text_of;
use crate::extractors::auth::{Authorized, AuthorizedView};
use crate::routes::account::helpers::{
    details_fault, UpdateUserDetailsPayload, UpdateUserDetailsPayloadView, UploadPictureForm,
};
use crate::routes::users::services::{Refusal, RefusalView};
use crate::static_files::helpers::{
    is_sound_place, place_of, rename_error_message, rename_error_text, rename_temp_file,
    RenameError, RenameTarget, RenameTargetView,
};
use crate::text::{i32_to_decimal, joined, signed_decimal};
use vstd::prelude::*;

verus! {

/// All that a user's account shows of them.
#[derive(Debug)]
pub struct AccountDetails {
    pub uid: i32,
    pub username: Option<String>,
    pub bio: Option<String>,
    pub pronouns: Option<String>,
    pub location: Option<String>,
    pub picture: Option<String>,
}

/// An `AccountDetails` as plain values, as contracts speak of it.
pub struct AccountDetailsView {
    pub uid: i32,
    pub username: Option<Seq<char>>,
    pub bio: Option<Seq<char>>,
    pub pronouns: Option<Seq<char>>,
    pub location: Option<Seq<char>>,
    pub picture: Option<Seq<char>>,
}

impl View for AccountDetails {
    type V = AccountDetailsView;

    open spec fn view(&self) -> AccountDetailsView {
        AccountDetailsView {
            uid: self.uid,
            username: text_of(self.username),
            bio: text_of(self.bio),
            pronouns: text_of(self.pronouns),
            location: text_of(self.location),
            picture: text_of(self.picture),
        }
    }
}

/// What a handler of the account routes asks of the stores.
#[derive(Debug)]
pub enum AccountRequest {
    LoadDetails(i32),
    /// Record these details for the user, in place of any others.
    UpsertDetails { uid: i32, details: UpdateUserDetailsPayload },
    /// Move the uploaded picture to its place among the profile pictures.
    MovePicture { stored_as: String },
    /// Record `path` as the picture of the user, in place of any other.
    UpsertPicture { uid: i32, path: String },
    LoadPicture(i32),
    DeletePicture(i32),
}

/// An `AccountRequest` as plain values, as contracts speak of it.
pub enum AccountRequestView {
    LoadDetails(i32),
    UpsertDetails { uid: i32, details: UpdateUserDetailsPayloadView },
    MovePicture { stored_as: Seq<char> },
    UpsertPicture { uid: i32, path: Seq<char> },
    LoadPicture(i32),
    DeletePicture(i32),
}

impl View for AccountRequest {
    type V = AccountRequestView;

    open spec fn view(&self) -> AccountRequestView {
        match *self {
            AccountRequest::LoadDetails(uid) => AccountRequestView::LoadDetails(uid),
            AccountRequest::UpsertDetails { uid, details } => AccountRequestView::UpsertDetails {
                uid,
                details: details@,
            },
            AccountRequest::MovePicture { stored_as } => AccountRequestView::MovePicture {
                stored_as: stored_as@,
            },
            AccountRequest::UpsertPicture { uid, path } => AccountRequestView::UpsertPicture {
                uid,
                path: path@,
            },
            AccountRequest::LoadPicture(uid) => AccountRequestView::LoadPicture(uid),
            AccountRequest::DeletePicture(uid) => AccountRequestView::DeletePicture(uid),
        }
    }
}

/// What the stores answer.
#[derive(Debug)]
pub enum AccountReply {
    /// The write, removal or move was carried out.
    Done,
    /// The store failed; the text says how.
    Failed(String),
    /// There is nothing on record.
    NotFound,
    Details(AccountDetails),
    Picture(ProfilePicture),
}

/// An `AccountReply` as plain values, as contracts speak of it.
pub enum AccountReplyView {
    Done,
    Failed(Seq<char>),
    NotFound,
    Details(AccountDetailsView),
    Picture(ProfilePictureView),
}

impl View for AccountReply {
    type V = AccountReplyView;

    open spec fn view(&self) -> AccountReplyView {
        match *self {
            AccountReply::Done => AccountReplyView::Done,
            AccountReply::Failed(cause) => AccountReplyView::Failed(cause@),
            AccountReply::NotFound => AccountReplyView::NotFound,
            AccountReply::Details(details) => AccountReplyView::Details(details@),
            AccountReply::Picture(picture) => AccountReplyView::Picture(picture@),
        }
    }
}

/// What a handler of the account routes hands back when it succeeds.
#[derive(Debug)]
pub enum AccountOutcome {
    /// The caller is known, under this id and name.
    Verified { uid: i32, username: String },
    Details(AccountDetails),
    Updated,
    Picture(ProfilePicture),
    PictureDeleted,
}

/// An `AccountOutcome` as plain values, as contracts speak of it.
pub enum AccountOutcomeView {
    Verified { uid: i32, username: Seq<char> },
    Details(AccountDetailsView),
    Updated,
    Picture(ProfilePictureView),
    PictureDeleted,
}

impl View for AccountOutcome {
    type V = AccountOutcomeView;

    open spec fn view(&self) -> AccountOutcomeView {
        match *self {
            AccountOutcome::Verified { uid, username } => AccountOutcomeView::Verified {
                uid,
                username: username@,
            },
            AccountOutcome::Details(details) => AccountOutcomeView::Details(details@),
            AccountOutcome::Updated => AccountOutcomeView::Updated,
            AccountOutcome::Picture(picture) => AccountOutcomeView::Picture(picture@),
            AccountOutcome::PictureDeleted => AccountOutcomeView::PictureDeleted,
        }
    }
}

/// The place found for an uploaded picture, or why none was found; `None` where no
/// picture was uploaded.
pub open spec fn placed(picture: Option<Result<RenameTarget, RenameError>>) -> Option<
    Result<RenameTargetView, RenameError>,
> {
    match picture {
        None => None,
        Some(Ok(target)) => Some(Ok(target@)),
        Some(Err(e)) => Some(Err(e)),
    }
}

/// How far a handler of the account routes has come.
#[derive(Debug)]
pub enum AccountSaga {
    LoadingDetails { uid: i32 },
    /// The details are being recorded; the picture waits.
    SavingDetails { uid: i32, picture: Option<Result<RenameTarget, RenameError>> },
    /// The picture is being moved into place.
    MovingPicture { uid: i32, file_name: String },
    RecordingPicture,
    LoadingPicture { uid: i32 },
    DeletingPicture,
}

/// An `AccountSaga` as plain values, as contracts speak of it.
pub enum AccountSagaView {
    LoadingDetails { uid: i32 },
    SavingDetails { uid: i32, picture: Option<Result<RenameTargetView, RenameError>> },
    MovingPicture { uid: i32, file_name: Seq<char> },
    RecordingPicture,
    LoadingPicture { uid: i32 },
    DeletingPicture,
}

impl View for AccountSaga {
    type V = AccountSagaView;

    open spec fn view(&self) -> AccountSagaView {
        match *self {
            AccountSaga::LoadingDetails { uid } => AccountSagaView::LoadingDetails { uid },
            AccountSaga::SavingDetails { uid, picture } => AccountSagaView::SavingDetails {
                uid,
                picture: placed(picture),
            },
            AccountSaga::MovingPicture { uid, file_name } => AccountSagaView::MovingPicture {
                uid,
                file_name: file_name@,
            },
            AccountSaga::RecordingPicture => AccountSagaView::RecordingPicture,
            AccountSaga::LoadingPicture { uid } => AccountSagaView::LoadingPicture { uid },
            AccountSaga::DeletingPicture => AccountSagaView::DeletingPicture,
        }
    }
}

/// Where a handler of the account routes stands after a decision.
#[derive(Debug)]
pub enum AccountProgress {
    Ask(AccountSaga, AccountRequest),
    Finish(Result<AccountOutcome, Refusal>),
}

/// An `AccountProgress` as plain values, as contracts speak of it.
pub enum AccountProgressView {
    Ask(AccountSagaView, AccountRequestView),
    Done(AccountOutcomeView),
    Refused(RefusalView),
}

impl View for AccountProgress {
    type V = AccountProgressView;

    open spec fn view(&self) -> AccountProgressView {
        match *self {
            AccountProgress::Ask(saga, request) => AccountProgressView::Ask(saga@, request@),
            AccountProgress::Finish(Ok(outcome)) => AccountProgressView::Done(outcome@),
            AccountProgress::Finish(Err(refusal)) => AccountProgressView::Refused(refusal@),
        }
    }
}

/// A request turned down with `status` and the texts `error` and `description`.
pub open spec fn turned_down(
    status: u16,
    error: Seq<char>,
    description: Seq<char>,
) -> AccountProgressView {
    AccountProgressView::Refused(RefusalView { status, error, description })
}

fn turn_down(status: u16, error: &str, description: String) -> (r: AccountProgress)
    ensures
        r@ == turned_down(status, error@, description@),
{
    AccountProgress::Finish(Err(Refusal { status, error: error.to_owned(), description }))
}

/// The cause that a reply gives for a failure.
pub open spec fn trouble_of(reply: AccountReplyView) -> Seq<char> {
    match reply {
        AccountReplyView::Failed(cause) => cause,
        _ => "Unexpected reply from the store"@,
    }
}

fn trouble(reply: AccountReply) -> (text: String)
    ensures
        text@ == trouble_of(reply@),
{
    match reply {
        AccountReply::Failed(cause) => cause,
        _ => "Unexpected reply from the store".to_owned(),
    }
}

/// Tells a caller who they are known as.
pub fn verify_jwt(authorized: Authorized) -> (r: AccountProgress)
    ensures
        r@ == (match authorized@ {
            AuthorizedView::Failed(reason) => turned_down(401, "Unauthorized"@, reason),
            AuthorizedView::Passed(uid, username) => AccountProgressView::Done(
                AccountOutcomeView::Verified { uid, username },
            ),
        }),
{
    match authorized {
        Authorized::Failed(reason) => turn_down(401, "Unauthorized", reason),
        Authorized::Passed(uid, username) => AccountProgress::Finish(
            Ok(AccountOutcome::Verified { uid, username }),
        ),
    }
}

/// Begins the showing of the caller's account.
pub fn get_account_details(authorized: Authorized) -> (r: AccountProgress)
    ensures
        r@ == (match authorized@ {
            AuthorizedView::Failed(reason) => turned_down(401, "Unauthorized"@, reason),
            AuthorizedView::Passed(uid, _) => AccountProgressView::Ask(
                AccountSagaView::LoadingDetails { uid },
                AccountRequestView::LoadDetails(uid),
            ),
        }),
{
    match authorized {
        Authorized::Failed(reason) => turn_down(401, "Unauthorized", reason),
        Authorized::Passed(uid, _) => AccountProgress::Ask(
            AccountSaga::LoadingDetails { uid },
            AccountRequest::LoadDetails(uid),
        ),
    }
}

/// Begins the showing of the profile picture of the user `uid`.
pub fn get_profile_picture(uid: i32) -> (r: AccountProgress)
    ensures
        r@ == AccountProgressView::Ask(
            AccountSagaView::LoadingPicture { uid },
            AccountRequestView::LoadPicture(uid),
        ),
{
    AccountProgress::Ask(AccountSaga::LoadingPicture { uid }, AccountRequest::LoadPicture(uid))
}

/// Begins the removal of the caller's profile picture.
pub fn delete_profile_picture(authorized: Authorized) -> (r: AccountProgress)
    ensures
        r@ == (match authorized@ {
            AuthorizedView::Failed(reason) => turned_down(401, "Unauthorized"@, reason),
            AuthorizedView::Passed(uid, _) => AccountProgressView::Ask(
                AccountSagaView::DeletingPicture,
                AccountRequestView::DeletePicture(uid),
            ),
        }),
{
    match authorized {
        Authorized::Failed(reason) => turn_down(401, "Unauthorized", reason),
        Authorized::Passed(uid, _) => AccountProgress::Ask(
            AccountSaga::DeletingPicture,
            AccountRequest::DeletePicture(uid),
        ),
    }
}

/// The view of details that may not have been readable.
pub open spec fn read_details(details: Result<UpdateUserDetailsPayload, String>) -> Result<
    UpdateUserDetailsPayloadView,
    Seq<char>,
> {
    match details {
        Ok(details) => Ok(details@),
        Err(reason) => Err(reason@),
    }
}

/// The first decision on a change of details: the caller must be known, the details
/// readable and free of faults; they are then recorded, and the picture waits.
pub open spec fn update_begins(
    authorized: AuthorizedView,
    details: Result<UpdateUserDetailsPayloadView, Seq<char>>,
    picture: Option<Result<RenameTargetView, RenameError>>,
) -> AccountProgressView {
    match authorized {
        AuthorizedView::Failed(reason) => turned_down(401, "Unauthorized"@, reason),
        AuthorizedView::Passed(uid, _) => match details {
            Err(reason) => turned_down(400, "Invalid details"@, reason),
            Ok(details) => match details_fault(details) {
                Some(fault) => AccountProgressView::Refused(fault),
                None => AccountProgressView::Ask(
                    AccountSagaView::SavingDetails { uid, picture },
                    AccountRequestView::UpsertDetails { uid, details },
                ),
            },
        },
    }
}

/// The next decision of a handler of the account routes, once the stores have
/// answered.
pub open spec fn account_next(saga: AccountSagaView, reply: AccountReplyView) -> AccountProgressView {
    match saga {
        AccountSagaView::LoadingDetails { uid } => match reply {
            AccountReplyView::Details(details) => AccountProgressView::Done(
                AccountOutcomeView::Details(details),
            ),
            AccountReplyView::NotFound => turned_down(
                404,
                "No user found"@,
                "Couldn't find user with the id: "@ + signed_decimal(uid as int),
            ),
            _ => turned_down(500, "Failed to get account details"@, trouble_of(reply)),
        },
        AccountSagaView::SavingDetails { uid, picture } => match reply {
            AccountReplyView::Done => match picture {
                None => AccountProgressView::Done(AccountOutcomeView::Updated),
                Some(Err(e)) => turned_down(400, "Invalid upload"@, rename_error_text(e)),
                Some(Ok(target)) => AccountProgressView::Ask(
                    AccountSagaView::MovingPicture { uid, file_name: target.file_name },
                    AccountRequestView::MovePicture { stored_as: target.stored_as },
                ),
            },
            _ => turned_down(500, "Failed to update user details"@, trouble_of(reply)),
        },
        AccountSagaView::MovingPicture { uid, file_name } => match reply {
            AccountReplyView::Done => AccountProgressView::Ask(
                AccountSagaView::RecordingPicture,
                AccountRequestView::UpsertPicture { uid, path: file_name },
            ),
            _ => turned_down(400, "Invalid upload"@, trouble_of(reply)),
        },
        AccountSagaView::RecordingPicture => match reply {
            AccountReplyView::Done => AccountProgressView::Done(AccountOutcomeView::Updated),
            _ => turned_down(500, "Invalid profile picture"@, trouble_of(reply)),
        },
        AccountSagaView::LoadingPicture { uid } => match reply {
            AccountReplyView::Picture(picture) => AccountProgressView::Done(
                AccountOutcomeView::Picture(picture),
            ),
            AccountReplyView::NotFound => turned_down(
                404,
                "No profile picture found"@,
                "Couldn't find profile picture from the user id: "@ + signed_decimal(uid as int),
            ),
            _ => turned_down(404, "No profile picture found"@, trouble_of(reply)),
        },
        AccountSagaView::DeletingPicture => match reply {
            AccountReplyView::Done => AccountProgressView::Done(AccountOutcomeView::PictureDeleted),
            _ => turned_down(500, "Failed to delete profile picture"@, trouble_of(reply)),
        },
    }
}

/// Begins a change of details for which the place of the picture is known.
pub fn start_update(
    authorized: Authorized,
    details: Result<UpdateUserDetailsPayload, String>,
    picture: Option<Result<RenameTarget, RenameError>>,
) -> (r: AccountProgress)
    ensures
        r@ == update_begins(authorized@, read_details(details), placed(picture)),
{
    let uid = match authorized {
        Authorized::Failed(reason) => { return turn_down(401, "Unauthorized", reason); },
        Authorized::Passed(uid, _) => uid,
    };
    let details = match details {
        Err(reason) => { return turn_down(400, "Invalid details", reason); },
        Ok(details) => details,
    };
    match details.verify() {
        Err(fault) => AccountProgress::Finish(Err(fault)),
        Ok(()) => AccountProgress::Ask(
            AccountSaga::SavingDetails { uid, picture },
            AccountRequest::UpsertDetails { uid, details },
        ),
    }
}

/// The place of the picture that came with a form of the caller `authorized`, if one
/// came: the place of an upload that is to be kept under the caller's id.
pub open spec fn placed_picture(
    authorized: Authorized,
    uploaded: Option<Option<String>>,
) -> Option<Result<RenameTargetView, RenameError>> {
    match (authorized, uploaded) {
        (Authorized::Passed(uid, _), Some(name)) => Some(
            place_of(text_of(name), signed_decimal(uid as int)),
        ),
        _ => None,
    }
}

/// Whether the place found for the picture of a known caller, if one is found, is a
/// sound one.
pub open spec fn picture_is_sound(authorized: Authorized, uploaded: Option<Option<String>>) -> bool {
    authorized matches Authorized::Passed(uid, _) ==> (uploaded matches Some(name)
        ==> is_sound_place(
        text_of(name),
        signed_decimal(uid as int),
        place_of(text_of(name), signed_decimal(uid as int)),
    ))
}

/// Begins a change of details: finds the place for the picture, if one was uploaded,
/// and takes the first decision.
pub fn update_account_details(authorized: Authorized, form: UploadPictureForm) -> (r:
    AccountProgress)
    ensures
        r@ == update_begins(
            authorized@,
            read_details(form.details),
            placed_picture(authorized, form.picture),
        ),
        picture_is_sound(authorized, form.picture),
{
    let uid = match &authorized {
        Authorized::Failed(_) => {
            return start_update(authorized, form.details, None);
        },
        Authorized::Passed(uid, _) => *uid,
    };
    let picture = match &form.picture {
        None => None,
        Some(name) => {
            let uploaded_name = match name {
                Some(name) => Some(name.as_str()),
                None => None,
            };
            Some(rename_temp_file(uploaded_name, i32_to_decimal(uid).as_str()))
        },
    };
    start_update(authorized, form.details, picture)
}

impl AccountSaga {
    /// Goes on with a handler of the account routes, now that the stores have
    /// answered the last request.
    pub fn step(self, reply: AccountReply) -> (r: AccountProgress)
        ensures
            r@ == account_next(self@, reply@),
    {
        match self {
            AccountSaga::LoadingDetails { uid } => match reply {
                AccountReply::Details(details) => AccountProgress::Finish(
                    Ok(AccountOutcome::Details(details)),
                ),
                AccountReply::NotFound => turn_down(
                    404,
                    "No user found",
                    joined("Couldn't find user with the id: ", i32_to_decimal(uid).as_str()),
                ),
                other => turn_down(500, "Failed to get account details", trouble(other)),
            },
            AccountSaga::SavingDetails { uid, picture } => match reply {
                AccountReply::Done => match picture {
                    None => AccountProgress::Finish(Ok(AccountOutcome::Updated)),
                    Some(Err(e)) => turn_down(400, "Invalid upload", rename_error_message(e)),
                    Some(Ok(target)) => AccountProgress::Ask(
                        AccountSaga::MovingPicture { uid, file_name: target.file_name },
                        AccountRequest::MovePicture { stored_as: target.stored_as },
                    ),
                },
                other => turn_down(500, "Failed to update user details", trouble(other)),
            },
            AccountSaga::MovingPicture { uid, file_name } => match reply {
                AccountReply::Done => AccountProgress::Ask(
                    AccountSaga::RecordingPicture,
                    AccountRequest::UpsertPicture { uid, path: file_name },
                ),
                other => turn_down(400, "Invalid upload", trouble(other)),
            },
            AccountSaga::RecordingPicture => match reply {
                AccountReply::Done => AccountProgress::Finish(Ok(AccountOutcome::Updated)),
                other => turn_down(500, "Invalid profile picture", trouble(other)),
            },
            AccountSaga::LoadingPicture { uid } => match reply {
                AccountReply::Picture(picture) => AccountProgress::Finish(
                    Ok(AccountOutcome::Picture(picture)),
                ),
                AccountReply::NotFound => turn_down(
                    404,
                    "No profile picture found",
                    joined(
                        "Couldn't find profile picture from the user id: ",
                        i32_to_decimal(uid).as_str(),
                    ),
                ),
                other => turn_down(404, "No profile picture found", trouble(other)),
            },
            AccountSaga::DeletingPicture => match reply {
                AccountReply::Done => AccountProgress::Finish(Ok(AccountOutcome::PictureDeleted)),
                other => turn_down(500, "Failed to delete profile picture", trouble(other)),
            },
        }
    }
}

} // verus!

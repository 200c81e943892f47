use crate::database::models::recipe::{
    Poster, PosterView, RecipeWithPoster, RecipeWithPosterView,
};
use crate::extractors::auth::{Authorized, AuthorizedView};
use crate::recipe_io::{document_fault, lemma_fault_none_iff_valid, RecipeFileJson, RecipeFileJsonView};
use crate::routes::error::{
    AuthError, AuthorizationError, ErrorKind, ServiceError, ServiceErrorView, StorageError,
    ValidationError,
};
use crate::routes::recipes::helpers::{
    document_name, effective_limit, effective_offset, is_uuid_text, new_document_ref,
    CreateRecipeForm, EditRecipeForm, FullRecipePayload, FullRecipePayloadView,
    GetRecipeQueryParams, Upload,
};
use crate::routes::recipes::store::{StoreReply, StoreReplyView, StoreRequest, StoreRequestView};
use crate::static_files::helpers::{
    is_sound_place, place_of, rename_temp_file, RenameError, RenameTarget, RenameTargetView,
};
use crate::text::{i32_to_decimal, joined, same_text, signed_decimal};
use vstd::prelude::*;

verus! {

/// Where a handler stands after a decision: it asks something of the stores and goes
/// on in state `S` once they have answered, or it is finished.
#[derive(Debug)]
pub enum Progress<S, T> {
    Ask(S, StoreRequest),
    Finish(Result<T, ServiceError>),
}

/// A `Progress` as plain values, as contracts speak of it.
pub enum ProgressView<S, T> {
    Ask(S, StoreRequestView),
    Done(T),
    Failed(ServiceErrorView),
}

impl<S: View, T: View> View for Progress<S, T> {
    type V = ProgressView<S::V, T::V>;

    open spec fn view(&self) -> ProgressView<S::V, T::V> {
        match *self {
            Progress::Ask(state, request) => ProgressView::Ask(state@, request@),
            Progress::Finish(Ok(value)) => ProgressView::Done(value@),
            Progress::Finish(Err(error)) => ProgressView::Failed(error@),
        }
    }
}

/// The error for a caller whom the guard did not let pass.
pub open spec fn unauthorized(reason: Seq<char>) -> ServiceErrorView {
    ServiceErrorView {
        kind: ErrorKind::Auth(AuthError::MissingHeader),
        error: "Unauthorized"@,
        description: reason,
    }
}

/// The error for a submitted text that could not be read as a recipe.
pub open spec fn unreadable_recipe() -> ServiceErrorView {
    ServiceErrorView {
        kind: ErrorKind::Validation(ValidationError::InvalidCharacters),
        error: "Invalid recipe"@,
        description: "The recipe is invalid, please ensure that all fields are filled out"@,
    }
}

/// What a caller is told of a fault in a recipe or its thumbnail.
pub open spec fn validation_text(fault: ValidationError) -> Seq<char> {
    match fault {
        ValidationError::InvalidCharacters =>
            "Invalid title, description or step details, please only use alphanumerical values"@,
        ValidationError::DuplicateStepOrder => "Steps passed contains duplicate order"@,
        ValidationError::EmptySteps => "A recipe needs at least one step"@,
        ValidationError::UnsupportedMedia => "An invalid mime type was passed, only jpeg/png"@,
    }
}

/// The error for a recipe with the fault `fault`.
pub open spec fn refused_recipe(fault: ValidationError) -> ServiceErrorView {
    ServiceErrorView {
        kind: ErrorKind::Validation(fault),
        error: "Invalid recipe format"@,
        description: validation_text(fault),
    }
}

/// The error for a failure of a store.
pub open spec fn storage_failure(
    kind: StorageError,
    title: Seq<char>,
    cause: Seq<char>,
) -> ServiceErrorView {
    ServiceErrorView { kind: ErrorKind::Storage(kind), error: title, description: cause }
}

/// The error for a recipe that is not on record.
pub open spec fn recipe_not_found(recipe_id: i32) -> ServiceErrorView {
    storage_failure(
        StorageError::NotFound,
        "Failed to get recipe with id: "@ + signed_decimal(recipe_id as int),
        "No recipe with this id"@,
    )
}

/// The error for a recipe row that could not be loaded.
pub open spec fn recipe_not_loaded(recipe_id: i32, cause: Seq<char>) -> ServiceErrorView {
    storage_failure(
        StorageError::DbFailure,
        "Failed to get recipe with id: "@ + signed_decimal(recipe_id as int),
        cause,
    )
}

/// The error for a caller who is not the owner of the recipe.
pub open spec fn not_owner() -> ServiceErrorView {
    ServiceErrorView {
        kind: ErrorKind::Authorization(AuthorizationError::NotOwner),
        error: "Failed to edit recipe"@,
        description: "Poster id and submitter id do not match"@,
    }
}

/// The error for a thumbnail that is refused.
pub open spec fn refused_thumbnail(description: Seq<char>) -> ServiceErrorView {
    ServiceErrorView {
        kind: ErrorKind::Validation(ValidationError::UnsupportedMedia),
        error: "Invalid thumbnail"@,
        description,
    }
}

/// The cause that a reply gives for a failure.
pub open spec fn cause_of(reply: StoreReplyView) -> Seq<char> {
    match reply {
        StoreReplyView::Failed(cause) => cause,
        StoreReplyView::Corrupt(cause) => cause,
        _ => "Unexpected reply from the store"@,
    }
}

fn cause(reply: StoreReply) -> (text: String)
    ensures
        text@ == cause_of(reply@),
{
    match reply {
        StoreReply::Failed(cause) => cause,
        StoreReply::Corrupt(cause) => cause,
        _ => "Unexpected reply from the store".to_owned(),
    }
}

fn validation_message(fault: ValidationError) -> (text: &'static str)
    ensures
        text@ == validation_text(fault),
{
    match fault {
        ValidationError::InvalidCharacters =>
            "Invalid title, description or step details, please only use alphanumerical values",
        ValidationError::DuplicateStepOrder => "Steps passed contains duplicate order",
        ValidationError::EmptySteps => "A recipe needs at least one step",
        ValidationError::UnsupportedMedia => "An invalid mime type was passed, only jpeg/png",
    }
}

fn fail<S, T>(kind: ErrorKind, title: String, description: String) -> (r: Progress<S, T>)
    ensures
        r == Progress::<S, T>::Finish(Err(ServiceError { kind, error: title, description })),
{
    Progress::Finish(Err(ServiceError { kind, error: title, description }))
}

/// Vets a submitted recipe: it must have been readable, and free of faults.
fn vetted(recipe: Option<RecipeFileJson>) -> (r: Result<RecipeFileJson, ServiceError>)
    ensures
        match recipe {
            None => r matches Err(e) && e@ == unreadable_recipe(),
            Some(document) => match document_fault(document@) {
                Some(fault) => r matches Err(e) && e@ == refused_recipe(fault),
                None => r == Ok::<RecipeFileJson, ServiceError>(document),
            },
        },
{
    match recipe {
        None => Err(
            ServiceError::new(
                ErrorKind::Validation(ValidationError::InvalidCharacters),
                "Invalid recipe",
                "The recipe is invalid, please ensure that all fields are filled out",
            ),
        ),
        Some(document) => {
            proof {
                lemma_fault_none_iff_valid(document@);
            }
            match document.is_valid_recipe() {
                Err(fault) => Err(
                    ServiceError::new(
                        ErrorKind::Validation(fault),
                        "Invalid recipe format",
                        validation_message(fault),
                    ),
                ),
                Ok(()) => Ok(document),
            }
        },
    }
}

/// The view of a recipe that may not have been readable.
pub open spec fn submitted(recipe: Option<RecipeFileJson>) -> Option<RecipeFileJsonView> {
    match recipe {
        Some(document) => Some(document@),
        None => None,
    }
}

/// What a submitted recipe comes to: the document, or the error it is refused with.
pub open spec fn vetting(recipe: Option<RecipeFileJsonView>) -> Result<
    RecipeFileJsonView,
    ServiceErrorView,
> {
    match recipe {
        None => Err(unreadable_recipe()),
        Some(document) => match document_fault(document) {
            Some(fault) => Err(refused_recipe(fault)),
            None => Ok(document),
        },
    }
}

/// A thumbnail that came with a new recipe: the media type that the upload declares,
/// and the place that was found for it.
#[derive(Debug)]
pub struct Thumbnail {
    pub content_type: Option<String>,
    pub target: Result<RenameTarget, RenameError>,
}

/// A `Thumbnail` as plain values, as contracts speak of it.
pub struct ThumbnailView {
    pub content_type: Option<Seq<char>>,
    pub target: Result<RenameTargetView, RenameError>,
}

impl View for Thumbnail {
    type V = ThumbnailView;

    open spec fn view(&self) -> ThumbnailView {
        ThumbnailView {
            content_type: crate::database::models::recipe::text_of(self.content_type),
            target: match self.target {
                Ok(target) => Ok(target@),
                Err(e) => Err(e),
            },
        }
    }
}

/// The view of a thumbnail that may not be there.
pub open spec fn attached(thumbnail: Option<Thumbnail>) -> Option<ThumbnailView> {
    match thumbnail {
        Some(thumbnail) => Some(thumbnail@),
        None => None,
    }
}

/// How far the creation of a recipe has come.
#[derive(Debug)]
pub enum CreateSaga {
    /// The document is being written.
    Writing { owner: i32, document_ref: String, thumbnail: Option<Thumbnail> },
    /// The document is written; the row is being inserted.
    Inserting { document_ref: String, thumbnail: Option<Thumbnail> },
    /// The row could not be inserted; the document is being removed again.
    Compensating { cause: String },
    /// The recipe is on record; its thumbnail is being moved into place.
    Moving { recipe_id: i32, file_name: String },
    /// The thumbnail is in place; it is being recorded.
    Recording { recipe_id: i32 },
}

/// A `CreateSaga` as plain values, as contracts speak of it.
pub enum CreateSagaView {
    Writing { owner: i32, document_ref: Seq<char>, thumbnail: Option<ThumbnailView> },
    Inserting { document_ref: Seq<char>, thumbnail: Option<ThumbnailView> },
    Compensating { cause: Seq<char> },
    Moving { recipe_id: i32, file_name: Seq<char> },
    Recording { recipe_id: i32 },
}

impl View for CreateSaga {
    type V = CreateSagaView;

    open spec fn view(&self) -> CreateSagaView {
        match *self {
            CreateSaga::Writing { owner, document_ref, thumbnail } => CreateSagaView::Writing {
                owner,
                document_ref: document_ref@,
                thumbnail: attached(thumbnail),
            },
            CreateSaga::Inserting { document_ref, thumbnail } => CreateSagaView::Inserting {
                document_ref: document_ref@,
                thumbnail: attached(thumbnail),
            },
            CreateSaga::Compensating { cause } => CreateSagaView::Compensating { cause: cause@ },
            CreateSaga::Moving { recipe_id, file_name } => CreateSagaView::Moving {
                recipe_id,
                file_name: file_name@,
            },
            CreateSaga::Recording { recipe_id } => CreateSagaView::Recording { recipe_id },
        }
    }
}

/// The first decision on a new recipe. Nothing is written for a caller who is not
/// known, nor for a recipe that is unreadable or faulty; otherwise the document is
/// written first, under the name `document_ref`.
pub open spec fn create_begins(
    authorized: AuthorizedView,
    recipe: Option<RecipeFileJsonView>,
    document_ref: Seq<char>,
    thumbnail: Option<ThumbnailView>,
) -> ProgressView<CreateSagaView, i32> {
    match authorized {
        AuthorizedView::Failed(reason) => ProgressView::Failed(unauthorized(reason)),
        AuthorizedView::Passed(owner, _) => match vetting(recipe) {
            Err(error) => ProgressView::Failed(error),
            Ok(document) => ProgressView::Ask(
                CreateSagaView::Writing { owner, document_ref, thumbnail },
                StoreRequestView::WriteDocument { document_ref, document },
            ),
        },
    }
}

/// What becomes of the thumbnail once the recipe `recipe_id` is on record. A
/// thumbnail of a media type other than JPEG or PNG is refused; one for which no
/// place was found is dropped, and the recipe stands without it.
pub open spec fn thumbnail_follows(recipe_id: i32, thumbnail: Option<ThumbnailView>) -> ProgressView<
    CreateSagaView,
    i32,
> {
    match thumbnail {
        None => ProgressView::Done(recipe_id),
        Some(thumbnail) => match thumbnail.content_type {
            None => ProgressView::Failed(refused_thumbnail("Couldn't get mime type"@)),
            Some(media) => if media != "image/jpeg"@ && media != "image/png"@ {
                ProgressView::Failed(
                    refused_thumbnail(validation_text(ValidationError::UnsupportedMedia)),
                )
            } else {
                match thumbnail.target {
                    Ok(target) => ProgressView::Ask(
                        CreateSagaView::Moving { recipe_id, file_name: target.file_name },
                        StoreRequestView::MoveThumbnail { stored_as: target.stored_as },
                    ),
                    Err(_) => ProgressView::Done(recipe_id),
                }
            },
        },
    }
}

/// The next decision on a new recipe, once the stores have answered. A document that
/// could not be written ends the creation. A row that could not be inserted has the
/// document removed again, and the creation fails whatever comes of the removal.
/// Once the row is in, nothing that happens to the thumbnail undoes the recipe.
pub open spec fn create_next(saga: CreateSagaView, reply: StoreReplyView) -> ProgressView<
    CreateSagaView,
    i32,
> {
    match saga {
        CreateSagaView::Writing { owner, document_ref, thumbnail } => match reply {
            StoreReplyView::Done => ProgressView::Ask(
                CreateSagaView::Inserting { document_ref, thumbnail },
                StoreRequestView::InsertRecipe { document_ref, owner },
            ),
            _ => ProgressView::Failed(
                storage_failure(
                    StorageError::FileIoFailure,
                    "Failed to save recipe file"@,
                    cause_of(reply),
                ),
            ),
        },
        CreateSagaView::Inserting { document_ref, thumbnail } => match reply {
            StoreReplyView::Inserted(recipe_id) => thumbnail_follows(recipe_id, thumbnail),
            _ => ProgressView::Ask(
                CreateSagaView::Compensating { cause: cause_of(reply) },
                StoreRequestView::DeleteDocument { document_ref },
            ),
        },
        CreateSagaView::Compensating { cause } => ProgressView::Failed(
            storage_failure(
                StorageError::DbFailure,
                "Failed to insert recipe data into database"@,
                cause,
            ),
        ),
        CreateSagaView::Moving { recipe_id, file_name } => match reply {
            StoreReplyView::Done => ProgressView::Ask(
                CreateSagaView::Recording { recipe_id },
                StoreRequestView::UpsertThumbnail { recipe_id, path: file_name },
            ),
            _ => ProgressView::Done(recipe_id),
        },
        CreateSagaView::Recording { recipe_id } => ProgressView::Done(recipe_id),
    }
}

/// Begins the creation of a recipe whose document is to be named `document_ref`.
pub fn start_create(
    authorized: Authorized,
    recipe: Option<RecipeFileJson>,
    document_ref: String,
    thumbnail: Option<Thumbnail>,
) -> (r: Progress<CreateSaga, i32>)
    ensures
        r@ == create_begins(authorized@, submitted(recipe), document_ref@, attached(thumbnail)),
{
    let owner = match authorized {
        Authorized::Failed(reason) => {
            return fail(
                ErrorKind::Auth(AuthError::MissingHeader),
                "Unauthorized".to_owned(),
                reason,
            );
        },
        Authorized::Passed(owner, _) => owner,
    };
    match vetted(recipe) {
        Err(error) => Progress::Finish(Err(error)),
        Ok(document) => {
            let request = StoreRequest::WriteDocument {
                document_ref: document_ref.clone(),
                document,
            };
            Progress::Ask(CreateSaga::Writing { owner, document_ref, thumbnail }, request)
        },
    }
}

fn thumbnail_step(recipe_id: i32, thumbnail: Option<Thumbnail>) -> (r: Progress<CreateSaga, i32>)
    ensures
        r@ == thumbnail_follows(recipe_id, attached(thumbnail)),
{
    let thumbnail = match thumbnail {
        None => { return Progress::Finish(Ok(recipe_id)); },
        Some(thumbnail) => thumbnail,
    };
    let media = match thumbnail.content_type {
        None => {
            return fail(
                ErrorKind::Validation(ValidationError::UnsupportedMedia),
                "Invalid thumbnail".to_owned(),
                "Couldn't get mime type".to_owned(),
            );
        },
        Some(media) => media,
    };
    if !same_text(media.as_str(), "image/jpeg") && !same_text(media.as_str(), "image/png") {
        return fail(
            ErrorKind::Validation(ValidationError::UnsupportedMedia),
            "Invalid thumbnail".to_owned(),
            validation_message(ValidationError::UnsupportedMedia).to_owned(),
        );
    }
    match thumbnail.target {
        Ok(target) => Progress::Ask(
            CreateSaga::Moving { recipe_id, file_name: target.file_name },
            StoreRequest::MoveThumbnail { stored_as: target.stored_as },
        ),
        Err(_) => Progress::Finish(Ok(recipe_id)),
    }
}

impl CreateSaga {
    /// Goes on with the creation of a recipe, now that the stores have answered the
    /// last request.
    pub fn step(self, reply: StoreReply) -> (r: Progress<CreateSaga, i32>)
        ensures
            r@ == create_next(self@, reply@),
    {
        match self {
            CreateSaga::Writing { owner, document_ref, thumbnail } => match reply {
                StoreReply::Done => {
                    let request = StoreRequest::InsertRecipe {
                        document_ref: document_ref.clone(),
                        owner,
                    };
                    Progress::Ask(CreateSaga::Inserting { document_ref, thumbnail }, request)
                },
                other => fail(
                    ErrorKind::Storage(StorageError::FileIoFailure),
                    "Failed to save recipe file".to_owned(),
                    cause(other),
                ),
            },
            CreateSaga::Inserting { document_ref, thumbnail } => match reply {
                StoreReply::Inserted(recipe_id) => thumbnail_step(recipe_id, thumbnail),
                other => Progress::Ask(
                    CreateSaga::Compensating { cause: cause(other) },
                    StoreRequest::DeleteDocument { document_ref },
                ),
            },
            CreateSaga::Compensating { cause } => fail(
                ErrorKind::Storage(StorageError::DbFailure),
                "Failed to insert recipe data into database".to_owned(),
                cause,
            ),
            CreateSaga::Moving { recipe_id, file_name } => match reply {
                StoreReply::Done => Progress::Ask(
                    CreateSaga::Recording { recipe_id },
                    StoreRequest::UpsertThumbnail { recipe_id, path: file_name },
                ),
                _ => Progress::Finish(Ok(recipe_id)),
            },
            CreateSaga::Recording { recipe_id } => Progress::Finish(Ok(recipe_id)),
        }
    }
}

/// The thumbnail made of the upload `upload` for a recipe whose document is named
/// `document_ref`: the declared media type is kept, and the place is the one of an
/// upload that is to be kept under the name of the document.
pub open spec fn prepared(upload: Option<Upload>, document_ref: Seq<char>) -> Option<
    ThumbnailView,
> {
    match upload {
        None => None,
        Some(upload) => Some(
            ThumbnailView {
                content_type: crate::database::models::recipe::text_of(upload.content_type),
                target: place_of(
                    crate::database::models::recipe::text_of(upload.file_name),
                    document_ref,
                ),
            },
        ),
    }
}

/// Whether `progress` is the first decision on the form `form` of the caller
/// `authorized`, for a document named `document_ref`. For a known caller the name is
/// the caller's id, a hyphen and a suffix in the form of a UUID, and the place found
/// for the thumbnail, if one is found, is a sound one.
pub open spec fn begins_creation(
    authorized: Authorized,
    form: CreateRecipeForm,
    document_ref: Seq<char>,
    progress: ProgressView<CreateSagaView, i32>,
) -> bool {
    &&& authorized matches Authorized::Passed(owner, _) ==> {
        &&& exists|suffix: Seq<char>|
            is_uuid_text(suffix) && document_ref == document_name(owner, suffix)
        &&& form.thumbnail matches Some(upload) ==> is_sound_place(
            crate::database::models::recipe::text_of(upload.file_name),
            document_ref,
            place_of(crate::database::models::recipe::text_of(upload.file_name), document_ref),
        )
    }
    &&& progress == create_begins(
        authorized@,
        submitted(form.recipe),
        document_ref,
        prepared(form.thumbnail, document_ref),
    )
}

/// Begins the creation of a recipe: draws a fresh name for its document, finds the
/// place for its thumbnail, and takes the first decision.
pub fn create_recipe(authorized: Authorized, form: CreateRecipeForm) -> (r: Progress<
    CreateSaga,
    i32,
>)
    ensures
        exists|document_ref: Seq<char>| begins_creation(authorized, form, document_ref, r@),
{
    let owner = match &authorized {
        Authorized::Failed(_) => {
            let r = start_create(authorized, form.recipe, String::new(), None);
            proof {
                assert(begins_creation(authorized, form, Seq::<char>::empty(), r@));
            }
            return r;
        },
        Authorized::Passed(owner, _) => *owner,
    };
    let document_ref = new_document_ref(owner);
    let thumbnail = match form.thumbnail {
        None => None,
        Some(upload) => {
            let uploaded_name = match &upload.file_name {
                Some(name) => Some(name.as_str()),
                None => None,
            };
            let target = rename_temp_file(uploaded_name, document_ref.as_str());
            Some(Thumbnail { content_type: upload.content_type, target })
        },
    };
    let ghost name = document_ref@;
    proof {
        assert(attached(thumbnail) == prepared(form.thumbnail, name));
    }
    let r = start_create(authorized, form.recipe, document_ref, thumbnail);
    proof {
        assert(begins_creation(authorized, form, name, r@));
    }
    r
}

/// How far the editing of a recipe has come.
#[derive(Debug)]
pub enum EditSaga {
    /// The row is being loaded; the replacement waits.
    Loading { uid: i32, recipe_id: i32, recipe: Option<RecipeFileJson> },
    /// The replacement is being written over the document.
    Writing,
}

/// An `EditSaga` as plain values, as contracts speak of it.
pub enum EditSagaView {
    Loading { uid: i32, recipe_id: i32, recipe: Option<RecipeFileJsonView> },
    Writing,
}

impl View for EditSaga {
    type V = EditSagaView;

    open spec fn view(&self) -> EditSagaView {
        match *self {
            EditSaga::Loading { uid, recipe_id, recipe } => EditSagaView::Loading {
                uid,
                recipe_id,
                recipe: submitted(recipe),
            },
            EditSaga::Writing => EditSagaView::Writing,
        }
    }
}

/// The first decision on an edit: a known caller has the row loaded.
pub open spec fn edit_begins(
    authorized: AuthorizedView,
    recipe_id: i32,
    recipe: Option<RecipeFileJsonView>,
) -> ProgressView<EditSagaView, ()> {
    match authorized {
        AuthorizedView::Failed(reason) => ProgressView::Failed(unauthorized(reason)),
        AuthorizedView::Passed(uid, _) => ProgressView::Ask(
            EditSagaView::Loading { uid, recipe_id, recipe },
            StoreRequestView::LoadRecipe { recipe_id },
        ),
    }
}

/// The next decision on an edit. Only the owner of a recipe may edit it, and only
/// with a recipe that is readable and free of faults; the replacement is then
/// written over the document that the row names. Nothing else is ever written.
pub open spec fn edit_next(saga: EditSagaView, reply: StoreReplyView) -> ProgressView<
    EditSagaView,
    (),
> {
    match saga {
        EditSagaView::Loading { uid, recipe_id, recipe } => match reply {
            StoreReplyView::Recipe(row) => if row.poster.uid != uid {
                ProgressView::Failed(not_owner())
            } else {
                match vetting(recipe) {
                    Err(error) => ProgressView::Failed(error),
                    Ok(document) => ProgressView::Ask(
                        EditSagaView::Writing,
                        StoreRequestView::WriteDocument {
                            document_ref: row.recipe_file_path,
                            document,
                        },
                    ),
                }
            },
            StoreReplyView::Missing => ProgressView::Failed(recipe_not_found(recipe_id)),
            _ => ProgressView::Failed(recipe_not_loaded(recipe_id, cause_of(reply))),
        },
        EditSagaView::Writing => match reply {
            StoreReplyView::Done => ProgressView::Done(()),
            _ => ProgressView::Failed(
                storage_failure(
                    StorageError::FileIoFailure,
                    "Failed to save recipe file"@,
                    cause_of(reply),
                ),
            ),
        },
    }
}

fn load_failure<S, T>(recipe_id: i32, reply: StoreReply) -> (r: Progress<S, T>)
    requires
        !(reply is Recipe),
    ensures
        r matches Progress::Finish(Err(e)) && e@ == (match reply@ {
            StoreReplyView::Missing => recipe_not_found(recipe_id),
            _ => recipe_not_loaded(recipe_id, cause_of(reply@)),
        }),
{
    let title = joined("Failed to get recipe with id: ", i32_to_decimal(recipe_id).as_str());
    match reply {
        StoreReply::Missing => fail(
            ErrorKind::Storage(StorageError::NotFound),
            title,
            "No recipe with this id".to_owned(),
        ),
        other => fail(ErrorKind::Storage(StorageError::DbFailure), title, cause(other)),
    }
}

/// Begins the editing of a recipe.
pub fn edit_recipe(authorized: Authorized, form: EditRecipeForm) -> (r: Progress<EditSaga, ()>)
    ensures
        r@ == edit_begins(authorized@, form.recipe_id, submitted(form.recipe)),
{
    match authorized {
        Authorized::Failed(reason) => fail(
            ErrorKind::Auth(AuthError::MissingHeader),
            "Unauthorized".to_owned(),
            reason,
        ),
        Authorized::Passed(uid, _) => Progress::Ask(
            EditSaga::Loading { uid, recipe_id: form.recipe_id, recipe: form.recipe },
            StoreRequest::LoadRecipe { recipe_id: form.recipe_id },
        ),
    }
}

impl EditSaga {
    /// Goes on with the editing of a recipe, now that the stores have answered the
    /// last request.
    pub fn step(self, reply: StoreReply) -> (r: Progress<EditSaga, ()>)
        ensures
            r@ == edit_next(self@, reply@),
    {
        match self {
            EditSaga::Loading { uid, recipe_id, recipe } => match reply {
                StoreReply::Recipe(row) => {
                    if row.poster.uid != uid {
                        return fail(
                            ErrorKind::Authorization(AuthorizationError::NotOwner),
                            "Failed to edit recipe".to_owned(),
                            "Poster id and submitter id do not match".to_owned(),
                        );
                    }
                    match vetted(recipe) {
                        Err(error) => Progress::Finish(Err(error)),
                        Ok(document) => Progress::Ask(
                            EditSaga::Writing,
                            StoreRequest::WriteDocument {
                                document_ref: row.recipe_file_path,
                                document,
                            },
                        ),
                    }
                },
                other => load_failure(recipe_id, other),
            },
            EditSaga::Writing => match reply {
                StoreReply::Done => Progress::Finish(Ok(())),
                other => fail(
                    ErrorKind::Storage(StorageError::FileIoFailure),
                    "Failed to save recipe file".to_owned(),
                    cause(other),
                ),
            },
        }
    }
}

/// How far the reading of a recipe has come.
#[derive(Debug)]
pub enum ReadSaga {
    /// The row is being loaded.
    Loading { recipe_id: i32 },
    /// The row is there; its document is being read.
    Reading { row: RecipeWithPoster },
}

/// A `ReadSaga` as plain values, as contracts speak of it.
pub enum ReadSagaView {
    Loading { recipe_id: i32 },
    Reading { row: RecipeWithPosterView },
}

impl View for ReadSaga {
    type V = ReadSagaView;

    open spec fn view(&self) -> ReadSagaView {
        match *self {
            ReadSaga::Loading { recipe_id } => ReadSagaView::Loading { recipe_id },
            ReadSaga::Reading { row } => ReadSagaView::Reading { row: row@ },
        }
    }
}

/// A recipe as it is shown, made of its row and its document.
pub open spec fn shown(row: RecipeWithPosterView, document: RecipeFileJsonView) -> FullRecipePayloadView {
    FullRecipePayloadView {
        recipe: document,
        poster: row.poster,
        id: row.id,
        date_created: row.date_created,
        thumbnail: row.thumbnail_path,
    }
}

/// The error for a document that could not be had.
pub open spec fn document_failure(reply: StoreReplyView) -> ServiceErrorView {
    storage_failure(
        match reply {
            StoreReplyView::Missing => StorageError::NotFound,
            StoreReplyView::Corrupt(_) => StorageError::Corrupt,
            _ => StorageError::FileIoFailure,
        },
        "Recipe file is invalid"@,
        match reply {
            StoreReplyView::Missing => "No document for this recipe"@,
            _ => cause_of(reply),
        },
    )
}

/// The next decision on reading a recipe: first its row, then the document that the
/// row names.
pub open spec fn read_next(saga: ReadSagaView, reply: StoreReplyView) -> ProgressView<
    ReadSagaView,
    FullRecipePayloadView,
> {
    match saga {
        ReadSagaView::Loading { recipe_id } => match reply {
            StoreReplyView::Recipe(row) => ProgressView::Ask(
                ReadSagaView::Reading { row },
                StoreRequestView::ReadDocument { document_ref: row.recipe_file_path },
            ),
            StoreReplyView::Missing => ProgressView::Failed(recipe_not_found(recipe_id)),
            _ => ProgressView::Failed(recipe_not_loaded(recipe_id, cause_of(reply))),
        },
        ReadSagaView::Reading { row } => match reply {
            StoreReplyView::Document(document) => ProgressView::Done(shown(row, document)),
            _ => ProgressView::Failed(document_failure(reply)),
        },
    }
}

fn document_unavailable<S, T>(reply: StoreReply) -> (r: Progress<S, T>)
    requires
        !(reply is Document),
    ensures
        r matches Progress::Finish(Err(e)) && e@ == document_failure(reply@),
{
    let title = "Recipe file is invalid".to_owned();
    match reply {
        StoreReply::Missing => fail(
            ErrorKind::Storage(StorageError::NotFound),
            title,
            "No document for this recipe".to_owned(),
        ),
        StoreReply::Corrupt(cause) => fail(ErrorKind::Storage(StorageError::Corrupt), title, cause),
        other => fail(ErrorKind::Storage(StorageError::FileIoFailure), title, cause(other)),
    }
}

fn payload(row: RecipeWithPoster, document: RecipeFileJson) -> (p: FullRecipePayload)
    ensures
        p@ == shown(row@, document@),
{
    FullRecipePayload {
        recipe: document,
        poster: row.poster,
        id: row.id,
        date_created: row.date_created,
        thumbnail: row.thumbnail_path,
    }
}

/// Begins the reading of the recipe `recipe_id`.
pub fn get_recipe(recipe_id: i32) -> (r: Progress<ReadSaga, FullRecipePayload>)
    ensures
        r@ == ProgressView::<ReadSagaView, FullRecipePayloadView>::Ask(
            ReadSagaView::Loading { recipe_id },
            StoreRequestView::LoadRecipe { recipe_id },
        ),
{
    Progress::Ask(ReadSaga::Loading { recipe_id }, StoreRequest::LoadRecipe { recipe_id })
}

impl ReadSaga {
    /// Goes on with the reading of a recipe, now that the stores have answered the
    /// last request.
    pub fn step(self, reply: StoreReply) -> (r: Progress<ReadSaga, FullRecipePayload>)
        ensures
            r@ == read_next(self@, reply@),
    {
        match self {
            ReadSaga::Loading { recipe_id } => match reply {
                StoreReply::Recipe(row) => {
                    let request = StoreRequest::ReadDocument {
                        document_ref: row.recipe_file_path.clone(),
                    };
                    Progress::Ask(ReadSaga::Reading { row }, request)
                },
                other => load_failure(recipe_id, other),
            },
            ReadSaga::Reading { row } => match reply {
                StoreReply::Document(document) => Progress::Finish(Ok(payload(row, document))),
                other => document_unavailable(other),
            },
        }
    }
}

/// Whether a caller may edit a recipe, and the recipe if they may.
#[derive(Debug)]
pub struct EditPermission {
    pub authorized: bool,
    pub recipe: Option<FullRecipePayload>,
}

/// An `EditPermission` as plain values, as contracts speak of it.
pub struct EditPermissionView {
    pub authorized: bool,
    pub recipe: Option<FullRecipePayloadView>,
}

impl View for EditPermission {
    type V = EditPermissionView;

    open spec fn view(&self) -> EditPermissionView {
        EditPermissionView {
            authorized: self.authorized,
            recipe: match self.recipe {
                Some(recipe) => Some(recipe@),
                None => None,
            },
        }
    }
}

/// How far the question whether a caller may edit a recipe has come.
#[derive(Debug)]
pub enum PermissionSaga {
    /// The owner of the recipe is being looked up.
    Authorizing { uid: i32, recipe_id: i32 },
    /// The caller is the owner; the row is being loaded.
    Loading { recipe_id: i32 },
    /// The row is there; the document is being read.
    Reading { row: RecipeWithPoster },
}

/// A `PermissionSaga` as plain values, as contracts speak of it.
pub enum PermissionSagaView {
    Authorizing { uid: i32, recipe_id: i32 },
    Loading { recipe_id: i32 },
    Reading { row: RecipeWithPosterView },
}

impl View for PermissionSaga {
    type V = PermissionSagaView;

    open spec fn view(&self) -> PermissionSagaView {
        match *self {
            PermissionSaga::Authorizing { uid, recipe_id } => PermissionSagaView::Authorizing {
                uid,
                recipe_id,
            },
            PermissionSaga::Loading { recipe_id } => PermissionSagaView::Loading { recipe_id },
            PermissionSaga::Reading { row } => PermissionSagaView::Reading { row: row@ },
        }
    }
}

/// The first decision on whether a caller may edit a recipe.
pub open spec fn permission_begins(authorized: AuthorizedView, recipe_id: i32) -> ProgressView<
    PermissionSagaView,
    EditPermissionView,
> {
    match authorized {
        AuthorizedView::Failed(reason) => ProgressView::Failed(unauthorized(reason)),
        AuthorizedView::Passed(uid, _) => ProgressView::Ask(
            PermissionSagaView::Authorizing { uid, recipe_id },
            StoreRequestView::LoadOwner { recipe_id },
        ),
    }
}

/// The error for a recipe whose owner could not be looked up.
pub open spec fn owner_not_loaded(recipe_id: i32, cause: Seq<char>) -> ServiceErrorView {
    storage_failure(
        StorageError::DbFailure,
        "Failed to get poster of recipe with id: "@ + signed_decimal(recipe_id as int),
        cause,
    )
}

/// The next decision on whether a caller may edit a recipe: the owner may, and is
/// shown the recipe; anyone else may not, and is shown nothing.
pub open spec fn permission_next(saga: PermissionSagaView, reply: StoreReplyView) -> ProgressView<
    PermissionSagaView,
    EditPermissionView,
> {
    match saga {
        PermissionSagaView::Authorizing { uid, recipe_id } => match reply {
            StoreReplyView::Owner(owner) => if owner == uid {
                ProgressView::Ask(
                    PermissionSagaView::Loading { recipe_id },
                    StoreRequestView::LoadRecipe { recipe_id },
                )
            } else {
                ProgressView::Done(EditPermissionView { authorized: false, recipe: None })
            },
            StoreReplyView::Missing => ProgressView::Failed(recipe_not_found(recipe_id)),
            _ => ProgressView::Failed(owner_not_loaded(recipe_id, cause_of(reply))),
        },
        PermissionSagaView::Loading { recipe_id } => match reply {
            StoreReplyView::Recipe(row) => ProgressView::Ask(
                PermissionSagaView::Reading { row },
                StoreRequestView::ReadDocument { document_ref: row.recipe_file_path },
            ),
            StoreReplyView::Missing => ProgressView::Failed(recipe_not_found(recipe_id)),
            _ => ProgressView::Failed(recipe_not_loaded(recipe_id, cause_of(reply))),
        },
        PermissionSagaView::Reading { row } => match reply {
            StoreReplyView::Document(document) => ProgressView::Done(
                EditPermissionView { authorized: true, recipe: Some(shown(row, document)) },
            ),
            _ => ProgressView::Failed(document_failure(reply)),
        },
    }
}

/// Begins the question whether the caller may edit the recipe `recipe_id`.
pub fn can_edit(authorized: Authorized, recipe_id: i32) -> (r: Progress<
    PermissionSaga,
    EditPermission,
>)
    ensures
        r@ == permission_begins(authorized@, recipe_id),
{
    match authorized {
        Authorized::Failed(reason) => fail(
            ErrorKind::Auth(AuthError::MissingHeader),
            "Unauthorized".to_owned(),
            reason,
        ),
        Authorized::Passed(uid, _) => Progress::Ask(
            PermissionSaga::Authorizing { uid, recipe_id },
            StoreRequest::LoadOwner { recipe_id },
        ),
    }
}

impl PermissionSaga {
    /// Goes on with the question whether a caller may edit a recipe, now that the
    /// stores have answered the last request.
    pub fn step(self, reply: StoreReply) -> (r: Progress<PermissionSaga, EditPermission>)
        ensures
            r@ == permission_next(self@, reply@),
    {
        match self {
            PermissionSaga::Authorizing { uid, recipe_id } => match reply {
                StoreReply::Owner(owner) => {
                    if owner == uid {
                        Progress::Ask(
                            PermissionSaga::Loading { recipe_id },
                            StoreRequest::LoadRecipe { recipe_id },
                        )
                    } else {
                        Progress::Finish(Ok(EditPermission { authorized: false, recipe: None }))
                    }
                },
                StoreReply::Missing => load_failure(recipe_id, StoreReply::Missing),
                other => fail(
                    ErrorKind::Storage(StorageError::DbFailure),
                    joined(
                        "Failed to get poster of recipe with id: ",
                        i32_to_decimal(recipe_id).as_str(),
                    ),
                    cause(other),
                ),
            },
            PermissionSaga::Loading { recipe_id } => match reply {
                StoreReply::Recipe(row) => {
                    let request = StoreRequest::ReadDocument {
                        document_ref: row.recipe_file_path.clone(),
                    };
                    Progress::Ask(PermissionSaga::Reading { row }, request)
                },
                other => load_failure(recipe_id, other),
            },
            PermissionSaga::Reading { row } => match reply {
                StoreReply::Document(document) => Progress::Finish(
                    Ok(EditPermission { authorized: true, recipe: Some(payload(row, document)) }),
                ),
                other => document_unavailable(other),
            },
        }
    }
}

/// A recipe as it stands in a list: its poster, its id, and the head of its
/// document.
#[derive(Debug)]
pub struct RecipeSummary {
    pub poster: Poster,
    pub id: i32,
    pub title: String,
    pub description: String,
    pub thumbnail: Option<String>,
}

/// A `RecipeSummary` as plain values, as contracts speak of it.
pub struct RecipeSummaryView {
    pub poster: PosterView,
    pub id: i32,
    pub title: Seq<char>,
    pub description: Seq<char>,
    pub thumbnail: Option<Seq<char>>,
}

impl View for RecipeSummary {
    type V = RecipeSummaryView;

    open spec fn view(&self) -> RecipeSummaryView {
        RecipeSummaryView {
            poster: self.poster@,
            id: self.id,
            title: self.title@,
            description: self.description@,
            thumbnail: crate::database::models::recipe::text_of(self.thumbnail),
        }
    }
}

/// A list of recipes.
#[derive(Debug)]
pub struct Summaries(pub Vec<RecipeSummary>);

impl View for Summaries {
    type V = Seq<RecipeSummaryView>;

    open spec fn view(&self) -> Seq<RecipeSummaryView> {
        self.0@.map_values(|summary: RecipeSummary| summary@)
    }
}

/// The rows of `rows` as plain values.
pub open spec fn row_views(rows: Seq<RecipeWithPoster>) -> Seq<RecipeWithPosterView> {
    rows.map_values(|row: RecipeWithPoster| row@)
}

/// How far the listing of recipes has come.
#[derive(Debug)]
pub enum ListSaga {
    /// The rows are being listed; `poster` is the user whose recipes are asked for,
    /// if only one user's are.
    Listing { poster: Option<i32> },
    /// The document of the row `current` is being read; `rest` are the rows still to
    /// come, `done` the recipes already summed up.
    Summarizing {
        poster: Option<i32>,
        current: RecipeWithPoster,
        rest: Vec<RecipeWithPoster>,
        done: Summaries,
    },
}

/// A `ListSaga` as plain values, as contracts speak of it.
pub enum ListSagaView {
    Listing { poster: Option<i32> },
    Summarizing {
        poster: Option<i32>,
        current: RecipeWithPosterView,
        rest: Seq<RecipeWithPosterView>,
        done: Seq<RecipeSummaryView>,
    },
}

impl View for ListSaga {
    type V = ListSagaView;

    open spec fn view(&self) -> ListSagaView {
        match *self {
            ListSaga::Listing { poster } => ListSagaView::Listing { poster },
            ListSaga::Summarizing { poster, current, rest, done } => ListSagaView::Summarizing {
                poster,
                current: current@,
                rest: row_views(rest@),
                done: done@,
            },
        }
    }
}

/// A recipe as it stands in a list, made of its row and its document.
pub open spec fn summed_up(row: RecipeWithPosterView, document: RecipeFileJsonView) -> RecipeSummaryView {
    RecipeSummaryView {
        poster: row.poster,
        id: row.id,
        title: document.title,
        description: document.description,
        thumbnail: row.thumbnail_path,
    }
}

/// The error for a user who has posted no recipe.
pub open spec fn no_recipes_by(uid: i32) -> ServiceErrorView {
    storage_failure(
        StorageError::NotFound,
        "No recipes found"@,
        "Couldn't find any recipes from the user with id: "@ + signed_decimal(uid as int),
    )
}

/// What a listing goes on with once the recipes in `done` are summed up and the rows
/// in `rows` are still to come: the document of the next row is read, or the list is
/// handed out. A list of one user's recipes that comes out empty is an error.
pub open spec fn list_goes_on(
    poster: Option<i32>,
    rows: Seq<RecipeWithPosterView>,
    done: Seq<RecipeSummaryView>,
) -> ProgressView<ListSagaView, Seq<RecipeSummaryView>> {
    if rows.len() > 0 {
        ProgressView::Ask(
            ListSagaView::Summarizing { poster, current: rows[0], rest: rows.drop_first(), done },
            StoreRequestView::ReadDocument { document_ref: rows[0].recipe_file_path },
        )
    } else if poster is Some && done.len() == 0 {
        ProgressView::Failed(no_recipes_by(poster->0))
    } else {
        ProgressView::Done(done)
    }
}

/// The next decision on a listing: each row has its document read, in the order of
/// the rows; a document that cannot be had ends the listing.
pub open spec fn list_next(saga: ListSagaView, reply: StoreReplyView) -> ProgressView<
    ListSagaView,
    Seq<RecipeSummaryView>,
> {
    match saga {
        ListSagaView::Listing { poster } => match reply {
            StoreReplyView::Recipes(rows) => list_goes_on(poster, rows, Seq::empty()),
            _ => ProgressView::Failed(
                storage_failure(
                    StorageError::DbFailure,
                    "Failed to get recipes"@,
                    cause_of(reply),
                ),
            ),
        },
        ListSagaView::Summarizing { poster, current, rest, done } => match reply {
            StoreReplyView::Document(document) => list_goes_on(
                poster,
                rest,
                done.push(summed_up(current, document)),
            ),
            _ => ProgressView::Failed(document_failure(reply)),
        },
    }
}

/// The first request of a listing of all recipes: the page that `params` comes to.
pub open spec fn list_begins(params: GetRecipeQueryParams) -> ProgressView<
    ListSagaView,
    Seq<RecipeSummaryView>,
> {
    ProgressView::Ask(
        ListSagaView::Listing { poster: None },
        StoreRequestView::ListPage {
            offset: effective_offset(params.offset),
            limit: effective_limit(params.limit),
        },
    )
}

/// Begins the listing of a page of recipes. Whatever the caller asks for, the page
/// holds at most ten rows.
pub fn get_recipes(params: GetRecipeQueryParams) -> (r: Progress<ListSaga, Summaries>)
    ensures
        r@ == list_begins(params),
{
    let (offset, limit) = params.effective();
    Progress::Ask(ListSaga::Listing { poster: None }, StoreRequest::ListPage { offset, limit })
}

/// Begins the listing of the recipes that the user `uid` posted.
pub fn get_recipe_by_poster(uid: i32) -> (r: Progress<ListSaga, Summaries>)
    ensures
        r@ == ProgressView::<ListSagaView, Seq<RecipeSummaryView>>::Ask(
            ListSagaView::Listing { poster: Some(uid) },
            StoreRequestView::ListByPoster { uid },
        ),
{
    Progress::Ask(ListSaga::Listing { poster: Some(uid) }, StoreRequest::ListByPoster { uid })
}

fn go_on(poster: Option<i32>, rows: Vec<RecipeWithPoster>, done: Summaries) -> (r: Progress<
    ListSaga,
    Summaries,
>)
    ensures
        r@ == list_goes_on(poster, row_views(rows@), done@),
{
    let mut rows = rows;
    if rows.len() > 0 {
        let ghost before = rows@;
        let current = rows.remove(0);
        proof {
            assert(row_views(rows@) == row_views(before).drop_first());
        }
        let request = StoreRequest::ReadDocument {
            document_ref: current.recipe_file_path.clone(),
        };
        return Progress::Ask(ListSaga::Summarizing { poster, current, rest: rows, done }, request);
    }
    match poster {
        Some(uid) => {
            if done.0.len() == 0 {
                return fail(
                    ErrorKind::Storage(StorageError::NotFound),
                    "No recipes found".to_owned(),
                    joined(
                        "Couldn't find any recipes from the user with id: ",
                        i32_to_decimal(uid).as_str(),
                    ),
                );
            }
        },
        None => {},
    }
    Progress::Finish(Ok(done))
}

fn summary(row: RecipeWithPoster, document: RecipeFileJson) -> (s: RecipeSummary)
    ensures
        s@ == summed_up(row@, document@),
{
    RecipeSummary {
        poster: row.poster,
        id: row.id,
        title: document.title,
        description: document.description,
        thumbnail: row.thumbnail_path,
    }
}

impl ListSaga {
    /// Goes on with a listing, now that the stores have answered the last request.
    pub fn step(self, reply: StoreReply) -> (r: Progress<ListSaga, Summaries>)
        ensures
            r@ == list_next(self@, reply@),
    {
        match self {
            ListSaga::Listing { poster } => match reply {
                StoreReply::Recipes(rows) => {
                    let done = Summaries(Vec::new());
                    proof {
                        assert(done@ == Seq::<RecipeSummaryView>::empty());
                    }
                    go_on(poster, rows, done)
                },
                other => fail(
                    ErrorKind::Storage(StorageError::DbFailure),
                    "Failed to get recipes".to_owned(),
                    cause(other),
                ),
            },
            ListSaga::Summarizing { poster, current, rest, done } => match reply {
                StoreReply::Document(document) => {
                    let mut done = done;
                    let ghost before = done@;
                    let entry = summary(current, document);
                    done.0.push(entry);
                    proof {
                        assert(done@ == before.push(entry@));
                    }
                    go_on(poster, rest, done)
                },
                other => document_unavailable(other),
            },
        }
    }
}

} // verus!

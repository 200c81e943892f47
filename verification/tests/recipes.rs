use recipe_backend::database::models::recipe::{Poster, RecipeWithPoster};
use recipe_backend::extractors::auth::Authorized;
use recipe_backend::recipe_io::{RecipeFileJson, RecipeStep};
use recipe_backend::routes::error::{
    AuthError, AuthorizationError, ErrorKind, ServiceError, StorageError, ValidationError,
};
use recipe_backend::routes::recipes::helpers::{
    CreateRecipeForm, EditRecipeForm, FullRecipePayload, GetRecipeQueryParams, Upload, PAGE_LIMIT,
};
use recipe_backend::routes::recipes::services::{
    can_edit, create_recipe, edit_recipe, get_recipe, get_recipe_by_poster, get_recipes,
    start_create, CreateSaga, EditPermission, EditSaga, ListSaga, PermissionSaga, Progress,
    ReadSaga, Summaries, Thumbnail,
};
use recipe_backend::routes::recipes::store::{StoreReply, StoreRequest};
use recipe_backend::static_files::helpers::{RenameError, RenameTarget};
use std::collections::BTreeMap;

/// The two stores, kept in memory. A store that is switched off fails every request
/// made of it.
struct Stores {
    documents: BTreeMap<String, (String, String, Vec<(u32, String)>)>,
    recipes: BTreeMap<i32, (i32, String)>,
    thumbnails: BTreeMap<i32, String>,
    moved: Vec<String>,
    next_id: i32,
    files_fail: bool,
    rows_fail: bool,
    log: Vec<String>,
}

fn stores() -> Stores {
    Stores {
        documents: BTreeMap::new(),
        recipes: BTreeMap::new(),
        thumbnails: BTreeMap::new(),
        moved: Vec::new(),
        next_id: 1,
        files_fail: false,
        rows_fail: false,
        log: Vec::new(),
    }
}

fn pack(document: &RecipeFileJson) -> (String, String, Vec<(u32, String)>) {
    (
        document.title.clone(),
        document.description.clone(),
        document.steps.iter().map(|s| (s.order, s.step_details.clone())).collect(),
    )
}

fn unpack(packed: &(String, String, Vec<(u32, String)>)) -> RecipeFileJson {
    RecipeFileJson {
        title: packed.0.clone(),
        description: packed.1.clone(),
        ingredients: Vec::new(),
        steps: packed
            .2
            .iter()
            .map(|(order, text)| RecipeStep {
                order: *order,
                step_details: text.clone(),
                measurements: None,
            })
            .collect(),
    }
}

fn row(stores: &Stores, id: i32) -> RecipeWithPoster {
    let (owner, document_ref) = stores.recipes[&id].clone();
    RecipeWithPoster {
        poster: Poster { uid: owner, username: format!("user{}", owner), picture: None },
        id,
        recipe_file_path: document_ref,
        date_created: 1_700_000_000,
        thumbnail_path: stores.thumbnails.get(&id).cloned(),
    }
}

fn perform(stores: &mut Stores, request: StoreRequest) -> StoreReply {
    match request {
        StoreRequest::WriteDocument { document_ref, document } => {
            stores.log.push(format!("write {}", document_ref));
            if stores.files_fail {
                return StoreReply::Failed("disk full".to_string());
            }
            stores.documents.insert(document_ref, pack(&document));
            StoreReply::Done
        }
        StoreRequest::ReadDocument { document_ref } => {
            stores.log.push(format!("read {}", document_ref));
            if stores.files_fail {
                return StoreReply::Failed("disk gone".to_string());
            }
            match stores.documents.get(&document_ref) {
                Some(packed) => StoreReply::Document(unpack(packed)),
                None => StoreReply::Missing,
            }
        }
        StoreRequest::DeleteDocument { document_ref } => {
            stores.log.push(format!("delete {}", document_ref));
            stores.documents.remove(&document_ref);
            StoreReply::Done
        }
        StoreRequest::InsertRecipe { document_ref, owner } => {
            stores.log.push(format!("insert {}", document_ref));
            if stores.rows_fail {
                return StoreReply::Failed("connection refused".to_string());
            }
            let id = stores.next_id;
            stores.next_id += 1;
            stores.recipes.insert(id, (owner, document_ref));
            StoreReply::Inserted(id)
        }
        StoreRequest::LoadRecipe { recipe_id } => {
            stores.log.push(format!("load {}", recipe_id));
            if stores.rows_fail {
                return StoreReply::Failed("connection refused".to_string());
            }
            if stores.recipes.contains_key(&recipe_id) {
                StoreReply::Recipe(row(stores, recipe_id))
            } else {
                StoreReply::Missing
            }
        }
        StoreRequest::LoadOwner { recipe_id } => {
            stores.log.push(format!("owner {}", recipe_id));
            if stores.rows_fail {
                return StoreReply::Failed("connection refused".to_string());
            }
            match stores.recipes.get(&recipe_id) {
                Some((owner, _)) => StoreReply::Owner(*owner),
                None => StoreReply::Missing,
            }
        }
        StoreRequest::ListPage { offset, limit } => {
            stores.log.push(format!("list {} {}", offset, limit));
            if stores.rows_fail {
                return StoreReply::Failed("connection refused".to_string());
            }
            let ids: Vec<i32> = stores.recipes.keys().cloned().collect();
            StoreReply::Recipes(
                ids.into_iter()
                    .skip(offset as usize)
                    .take(limit as usize)
                    .map(|id| row(stores, id))
                    .collect(),
            )
        }
        StoreRequest::ListByPoster { uid } => {
            stores.log.push(format!("by {}", uid));
            let ids: Vec<i32> = stores.recipes.keys().cloned().collect();
            StoreReply::Recipes(
                ids.into_iter()
                    .filter(|id| stores.recipes[id].0 == uid)
                    .map(|id| row(stores, id))
                    .collect(),
            )
        }
        StoreRequest::MoveThumbnail { stored_as } => {
            stores.log.push(format!("move {}", stored_as));
            if stores.files_fail {
                return StoreReply::Failed("disk full".to_string());
            }
            stores.moved.push(stored_as);
            StoreReply::Done
        }
        StoreRequest::UpsertThumbnail { recipe_id, path } => {
            stores.log.push(format!("thumbnail {}", recipe_id));
            if stores.rows_fail {
                return StoreReply::Failed("connection refused".to_string());
            }
            stores.thumbnails.insert(recipe_id, path);
            StoreReply::Done
        }
    }
}

fn run_create(stores: &mut Stores, mut progress: Progress<CreateSaga, i32>) -> Result<i32, ServiceError> {
    loop {
        match progress {
            Progress::Finish(result) => return result,
            Progress::Ask(saga, request) => {
                let reply = perform(stores, request);
                progress = saga.step(reply);
            }
        }
    }
}

fn run_edit(stores: &mut Stores, mut progress: Progress<EditSaga, ()>) -> Result<(), ServiceError> {
    loop {
        match progress {
            Progress::Finish(result) => return result,
            Progress::Ask(saga, request) => {
                let reply = perform(stores, request);
                progress = saga.step(reply);
            }
        }
    }
}

fn run_read(
    stores: &mut Stores,
    mut progress: Progress<ReadSaga, FullRecipePayload>,
) -> Result<FullRecipePayload, ServiceError> {
    loop {
        match progress {
            Progress::Finish(result) => return result,
            Progress::Ask(saga, request) => {
                let reply = perform(stores, request);
                progress = saga.step(reply);
            }
        }
    }
}

fn run_permission(
    stores: &mut Stores,
    mut progress: Progress<PermissionSaga, EditPermission>,
) -> Result<EditPermission, ServiceError> {
    loop {
        match progress {
            Progress::Finish(result) => return result,
            Progress::Ask(saga, request) => {
                let reply = perform(stores, request);
                progress = saga.step(reply);
            }
        }
    }
}

fn run_list(
    stores: &mut Stores,
    mut progress: Progress<ListSaga, Summaries>,
) -> Result<Summaries, ServiceError> {
    loop {
        match progress {
            Progress::Finish(result) => return result,
            Progress::Ask(saga, request) => {
                let reply = perform(stores, request);
                progress = saga.step(reply);
            }
        }
    }
}

fn step(order: u32, text: &str) -> RecipeStep {
    RecipeStep { order, step_details: text.to_string(), measurements: None }
}

fn soup() -> RecipeFileJson {
    RecipeFileJson {
        title: "Soup".to_string(),
        description: "Warm soup".to_string(),
        ingredients: Vec::new(),
        steps: vec![step(1, "Boil water")],
    }
}

fn stew() -> RecipeFileJson {
    RecipeFileJson {
        title: "Stew".to_string(),
        description: "Thick stew".to_string(),
        ingredients: Vec::new(),
        steps: vec![step(1, "Brown the meat"), step(2, "Simmer")],
    }
}

fn alice() -> Authorized {
    Authorized::Passed(7, "alice".to_string())
}

fn bob() -> Authorized {
    Authorized::Passed(8, "bob".to_string())
}

fn nobody() -> Authorized {
    Authorized::Failed("Unable to authenticate JWT".to_string())
}

fn plain(recipe: RecipeFileJson) -> CreateRecipeForm {
    CreateRecipeForm { thumbnail: None, recipe: Some(recipe) }
}

fn with_upload(recipe: RecipeFileJson, content_type: Option<&str>, name: Option<&str>) -> CreateRecipeForm {
    CreateRecipeForm {
        thumbnail: Some(Upload {
            content_type: content_type.map(|s| s.to_string()),
            file_name: name.map(|s| s.to_string()),
        }),
        recipe: Some(recipe),
    }
}

#[test]
fn the_page_limit_is_ten() {
    assert_eq!(PAGE_LIMIT, 10);
}

#[test]
fn a_limit_of_500_is_cut_to_10() {
    let params = GetRecipeQueryParams { offset: None, limit: Some(500) };
    assert_eq!(params.effective(), (0, 10));
}

#[test]
fn paging_defaults_to_the_first_ten() {
    let params = GetRecipeQueryParams { offset: None, limit: None };
    assert_eq!(params.effective(), (0, 10));
}

#[test]
fn a_small_limit_and_an_offset_are_kept() {
    assert_eq!(GetRecipeQueryParams { offset: Some(30), limit: Some(3) }.effective(), (30, 3));
    assert_eq!(GetRecipeQueryParams { offset: Some(0), limit: Some(0) }.effective(), (0, 0));
    assert_eq!(GetRecipeQueryParams { offset: Some(5), limit: Some(10) }.effective(), (5, 10));
    assert_eq!(GetRecipeQueryParams { offset: Some(5), limit: Some(11) }.effective(), (5, 10));
    assert_eq!(
        GetRecipeQueryParams { offset: Some(u32::MAX), limit: Some(u32::MAX) }.effective(),
        (u32::MAX, 10)
    );
}

#[test]
fn a_created_recipe_reads_back_as_submitted() {
    let mut stores = stores();
    let id = run_create(&mut stores, create_recipe(alice(), plain(soup()))).expect("an id");
    let shown = run_read(&mut stores, get_recipe(id)).expect("a recipe");
    assert_eq!(shown.id, id);
    assert_eq!(shown.poster.uid, 7);
    assert_eq!(shown.recipe.title, "Soup");
    assert_eq!(shown.recipe.description, "Warm soup");
    assert_eq!(shown.recipe.steps.len(), 1);
    assert_eq!(shown.recipe.steps[0].order, 1);
    assert_eq!(shown.recipe.steps[0].step_details, "Boil water");
    assert_eq!(shown.thumbnail, None);
}

#[test]
fn a_created_recipe_has_a_row_and_a_document_named_after_its_owner() {
    let mut stores = stores();
    let id = run_create(&mut stores, create_recipe(alice(), plain(soup()))).expect("an id");
    let (owner, document_ref) = stores.recipes[&id].clone();
    assert_eq!(owner, 7);
    assert!(document_ref.starts_with("7-"));
    assert_eq!(document_ref.len(), 2 + 36);
    assert_eq!(stores.documents.len(), 1);
    assert!(stores.documents.contains_key(&document_ref));
    assert_eq!(stores.log, vec![format!("write {}", document_ref), format!("insert {}", document_ref)]);
}

#[test]
fn two_recipes_of_one_user_get_two_documents() {
    let mut stores = stores();
    let first = run_create(&mut stores, create_recipe(alice(), plain(soup()))).unwrap();
    let second = run_create(&mut stores, create_recipe(alice(), plain(stew()))).unwrap();
    assert_ne!(first, second);
    assert_eq!(stores.documents.len(), 2);
    assert_eq!(run_read(&mut stores, get_recipe(first)).unwrap().recipe.title, "Soup");
    assert_eq!(run_read(&mut stores, get_recipe(second)).unwrap().recipe.title, "Stew");
}

#[test]
fn a_recipe_with_a_duplicate_step_order_leaves_nothing_behind() {
    let mut stores = stores();
    let mut recipe = soup();
    recipe.steps = vec![step(1, "Boil water"), step(1, "Add salt")];
    let error = run_create(&mut stores, create_recipe(alice(), plain(recipe))).unwrap_err();
    assert_eq!(error.kind, ErrorKind::Validation(ValidationError::DuplicateStepOrder));
    assert_eq!(error.error, "Invalid recipe format");
    assert_eq!(error.description, "Steps passed contains duplicate order");
    assert!(stores.documents.is_empty());
    assert!(stores.recipes.is_empty());
    assert!(stores.log.is_empty());
}

#[test]
fn a_recipe_without_steps_leaves_nothing_behind() {
    let mut stores = stores();
    let mut recipe = soup();
    recipe.steps = Vec::new();
    let error = run_create(&mut stores, create_recipe(alice(), plain(recipe))).unwrap_err();
    assert_eq!(error.kind, ErrorKind::Validation(ValidationError::EmptySteps));
    assert!(stores.log.is_empty());
}

#[test]
fn a_recipe_with_a_symbol_in_its_title_leaves_nothing_behind() {
    let mut stores = stores();
    let mut recipe = soup();
    recipe.title = "S\u{2603}up".to_string();
    let error = run_create(&mut stores, create_recipe(alice(), plain(recipe))).unwrap_err();
    assert_eq!(error.kind, ErrorKind::Validation(ValidationError::InvalidCharacters));
    assert!(stores.log.is_empty());
}

#[test]
fn an_unreadable_recipe_is_refused() {
    let mut stores = stores();
    let form = CreateRecipeForm { thumbnail: None, recipe: None };
    let error = run_create(&mut stores, create_recipe(alice(), form)).unwrap_err();
    assert_eq!(error.error, "Invalid recipe");
    assert_eq!(error.render().0, 400);
    assert!(stores.log.is_empty());
}

#[test]
fn an_unknown_caller_creates_nothing() {
    let mut stores = stores();
    let error = run_create(&mut stores, create_recipe(nobody(), plain(soup()))).unwrap_err();
    assert_eq!(error.kind, ErrorKind::Auth(AuthError::MissingHeader));
    assert_eq!(error.error, "Unauthorized");
    assert_eq!(error.description, "Unable to authenticate JWT");
    assert_eq!(error.render().0, 401);
    assert!(stores.log.is_empty());
}

#[test]
fn a_document_that_cannot_be_written_ends_the_creation() {
    let mut stores = stores();
    stores.files_fail = true;
    let error = run_create(&mut stores, create_recipe(alice(), plain(soup()))).unwrap_err();
    assert_eq!(error.kind, ErrorKind::Storage(StorageError::FileIoFailure));
    assert_eq!(error.error, "Failed to save recipe file");
    assert_eq!(error.description, "disk full");
    assert_eq!(error.render().0, 500);
    assert!(stores.recipes.is_empty());
    assert_eq!(stores.log.len(), 1);
}

#[test]
fn a_row_that_cannot_be_inserted_has_the_document_removed_again() {
    let mut stores = stores();
    stores.rows_fail = true;
    let error = run_create(&mut stores, create_recipe(alice(), plain(soup()))).unwrap_err();
    assert_eq!(error.kind, ErrorKind::Storage(StorageError::DbFailure));
    assert_eq!(error.error, "Failed to insert recipe data into database");
    assert_eq!(error.description, "connection refused");
    assert!(stores.documents.is_empty());
    assert!(stores.recipes.is_empty());
    assert_eq!(stores.log.len(), 3);
    assert!(stores.log[0].starts_with("write 7-"));
    assert!(stores.log[1].starts_with("insert 7-"));
    assert!(stores.log[2].starts_with("delete 7-"));
}

#[test]
fn a_removal_that_fails_does_not_change_the_error() {
    let saga = CreateSaga::Compensating { cause: "connection refused".to_string() };
    match saga.step(StoreReply::Failed("cannot remove".to_string())) {
        Progress::Finish(Err(error)) => {
            assert_eq!(error.kind, ErrorKind::Storage(StorageError::DbFailure));
            assert_eq!(error.description, "connection refused");
        }
        other => panic!("not failed: {:?}", other),
    }
}

#[test]
fn a_thumbnail_is_moved_and_recorded() {
    let mut stores = stores();
    let form = with_upload(soup(), Some("image/png"), Some("my soup.png"));
    let id = run_create(&mut stores, create_recipe(alice(), form)).expect("an id");
    let document_ref = stores.recipes[&id].1.clone();
    assert_eq!(stores.thumbnails[&id], format!("{}.png", document_ref));
    assert_eq!(stores.moved, vec![format!("{}.png", document_ref)]);
    let shown = run_read(&mut stores, get_recipe(id)).unwrap();
    assert_eq!(shown.thumbnail, Some(format!("{}.png", document_ref)));
}

#[test]
fn a_jpeg_thumbnail_is_accepted_too() {
    let mut stores = stores();
    let form = with_upload(soup(), Some("image/jpeg"), Some("soup.jpeg"));
    let id = run_create(&mut stores, create_recipe(alice(), form)).expect("an id");
    assert!(stores.thumbnails[&id].ends_with(".jpeg"));
}

#[test]
fn a_thumbnail_of_another_media_type_is_refused_but_the_recipe_stays() {
    let mut stores = stores();
    let form = with_upload(soup(), Some("image/gif"), Some("soup.gif"));
    let error = run_create(&mut stores, create_recipe(alice(), form)).unwrap_err();
    assert_eq!(error.kind, ErrorKind::Validation(ValidationError::UnsupportedMedia));
    assert_eq!(error.error, "Invalid thumbnail");
    assert_eq!(error.description, "An invalid mime type was passed, only jpeg/png");
    assert_eq!(error.render().0, 400);
    assert_eq!(stores.recipes.len(), 1);
    assert_eq!(stores.documents.len(), 1);
    assert!(stores.thumbnails.is_empty());
    assert!(stores.moved.is_empty());
}

#[test]
fn a_thumbnail_without_media_type_is_refused() {
    let mut stores = stores();
    let form = with_upload(soup(), None, Some("soup.png"));
    let error = run_create(&mut stores, create_recipe(alice(), form)).unwrap_err();
    assert_eq!(error.kind, ErrorKind::Validation(ValidationError::UnsupportedMedia));
    assert_eq!(error.description, "Couldn't get mime type");
}

#[test]
fn a_thumbnail_without_a_usable_name_is_dropped() {
    let mut stores = stores();
    let no_name = with_upload(soup(), Some("image/png"), None);
    let first = run_create(&mut stores, create_recipe(alice(), no_name)).expect("an id");
    let no_extension = with_upload(stew(), Some("image/png"), Some("soup"));
    let second = run_create(&mut stores, create_recipe(alice(), no_extension)).expect("an id");
    assert_ne!(first, second);
    assert!(stores.thumbnails.is_empty());
    assert!(stores.moved.is_empty());
}

#[test]
fn a_thumbnail_that_cannot_be_moved_is_dropped() {
    let document_ref = "7-abc".to_string();
    let thumbnail = Thumbnail {
        content_type: Some("image/png".to_string()),
        target: Ok(RenameTarget {
            file_name: "7-abc.png".to_string(),
            stored_as: "7-abc.png".to_string(),
        }),
    };
    let begun = start_create(alice(), Some(soup()), document_ref, Some(thumbnail));
    let saga = match begun {
        Progress::Ask(saga, StoreRequest::WriteDocument { document_ref, document }) => {
            assert_eq!(document_ref, "7-abc");
            assert_eq!(document.title, "Soup");
            saga
        }
        other => panic!("no write asked for: {:?}", other),
    };
    let saga = match saga.step(StoreReply::Done) {
        Progress::Ask(saga, StoreRequest::InsertRecipe { document_ref, owner }) => {
            assert_eq!(document_ref, "7-abc");
            assert_eq!(owner, 7);
            saga
        }
        other => panic!("no insert asked for: {:?}", other),
    };
    let saga = match saga.step(StoreReply::Inserted(31)) {
        Progress::Ask(saga, StoreRequest::MoveThumbnail { stored_as }) => {
            assert_eq!(stored_as, "7-abc.png");
            saga
        }
        other => panic!("no move asked for: {:?}", other),
    };
    match saga.step(StoreReply::Failed("disk full".to_string())) {
        Progress::Finish(Ok(id)) => assert_eq!(id, 31),
        other => panic!("not finished: {:?}", other),
    }
}

#[test]
fn a_thumbnail_that_cannot_be_recorded_is_dropped() {
    let saga = CreateSaga::Moving { recipe_id: 31, file_name: "7-abc.png".to_string() };
    let saga = match saga.step(StoreReply::Done) {
        Progress::Ask(saga, StoreRequest::UpsertThumbnail { recipe_id, path }) => {
            assert_eq!(recipe_id, 31);
            assert_eq!(path, "7-abc.png");
            saga
        }
        other => panic!("no record asked for: {:?}", other),
    };
    match saga.step(StoreReply::Failed("connection refused".to_string())) {
        Progress::Finish(Ok(id)) => assert_eq!(id, 31),
        other => panic!("not finished: {:?}", other),
    }
}

#[test]
fn a_thumbnail_for_which_no_place_was_found_is_dropped() {
    let thumbnail = Thumbnail {
        content_type: Some("image/png".to_string()),
        target: Err(RenameError::NoExtension),
    };
    let saga = CreateSaga::Inserting { document_ref: "7-abc".to_string(), thumbnail: Some(thumbnail) };
    match saga.step(StoreReply::Inserted(31)) {
        Progress::Finish(Ok(id)) => assert_eq!(id, 31),
        other => panic!("not finished: {:?}", other),
    }
}

#[test]
fn an_edit_by_the_owner_replaces_the_document() {
    let mut stores = stores();
    let id = run_create(&mut stores, create_recipe(alice(), plain(soup()))).unwrap();
    let document_ref = stores.recipes[&id].1.clone();
    let form = EditRecipeForm { recipe: Some(stew()), recipe_id: id };
    assert!(run_edit(&mut stores, edit_recipe(alice(), form)).is_ok());
    assert_eq!(stores.documents.len(), 1);
    assert_eq!(stores.recipes[&id].1, document_ref);
    let shown = run_read(&mut stores, get_recipe(id)).unwrap();
    assert_eq!(shown.recipe.title, "Stew");
    assert_eq!(shown.recipe.steps.len(), 2);
}

#[test]
fn an_edit_by_a_stranger_is_refused_and_changes_nothing() {
    let mut stores = stores();
    let id = run_create(&mut stores, create_recipe(alice(), plain(soup()))).unwrap();
    let before = run_read(&mut stores, get_recipe(id)).unwrap();
    let writes_before = stores.log.iter().filter(|l| l.starts_with("write")).count();
    let form = EditRecipeForm { recipe: Some(stew()), recipe_id: id };
    let error = run_edit(&mut stores, edit_recipe(bob(), form)).unwrap_err();
    assert_eq!(error.kind, ErrorKind::Authorization(AuthorizationError::NotOwner));
    assert_eq!(error.error, "Failed to edit recipe");
    assert_eq!(error.description, "Poster id and submitter id do not match");
    assert_eq!(error.render().0, 401);
    let after = run_read(&mut stores, get_recipe(id)).unwrap();
    assert_eq!(after.recipe.title, before.recipe.title);
    assert_eq!(after.recipe.description, before.recipe.description);
    assert_eq!(after.recipe.steps.len(), before.recipe.steps.len());
    assert_eq!(after.recipe.steps[0].step_details, before.recipe.steps[0].step_details);
    assert_eq!(stores.log.iter().filter(|l| l.starts_with("write")).count(), writes_before);
}

#[test]
fn a_stranger_is_refused_before_the_replacement_is_looked_at() {
    let mut stores = stores();
    let id = run_create(&mut stores, create_recipe(alice(), plain(soup()))).unwrap();
    let form = EditRecipeForm { recipe: None, recipe_id: id };
    let error = run_edit(&mut stores, edit_recipe(bob(), form)).unwrap_err();
    assert_eq!(error.kind, ErrorKind::Authorization(AuthorizationError::NotOwner));
}

#[test]
fn an_edit_of_a_recipe_that_is_not_there_is_not_found() {
    let mut stores = stores();
    let form = EditRecipeForm { recipe: Some(stew()), recipe_id: 99 };
    let error = run_edit(&mut stores, edit_recipe(alice(), form)).unwrap_err();
    assert_eq!(error.kind, ErrorKind::Storage(StorageError::NotFound));
    assert_eq!(error.error, "Failed to get recipe with id: 99");
    assert_eq!(error.render().0, 404);
}

#[test]
fn an_edit_with_a_faulty_recipe_changes_nothing() {
    let mut stores = stores();
    let id = run_create(&mut stores, create_recipe(alice(), plain(soup()))).unwrap();
    let mut faulty = stew();
    faulty.steps[1].order = 1;
    let form = EditRecipeForm { recipe: Some(faulty), recipe_id: id };
    let error = run_edit(&mut stores, edit_recipe(alice(), form)).unwrap_err();
    assert_eq!(error.kind, ErrorKind::Validation(ValidationError::DuplicateStepOrder));
    assert_eq!(run_read(&mut stores, get_recipe(id)).unwrap().recipe.title, "Soup");
}

#[test]
fn an_edit_that_cannot_be_written_leaves_the_old_document() {
    let mut stores = stores();
    let id = run_create(&mut stores, create_recipe(alice(), plain(soup()))).unwrap();
    stores.files_fail = true;
    let form = EditRecipeForm { recipe: Some(stew()), recipe_id: id };
    let error = run_edit(&mut stores, edit_recipe(alice(), form)).unwrap_err();
    assert_eq!(error.kind, ErrorKind::Storage(StorageError::FileIoFailure));
    stores.files_fail = false;
    assert_eq!(run_read(&mut stores, get_recipe(id)).unwrap().recipe.title, "Soup");
}

#[test]
fn an_edit_by_an_unknown_caller_asks_nothing() {
    let mut stores = stores();
    let form = EditRecipeForm { recipe: Some(stew()), recipe_id: 1 };
    let error = run_edit(&mut stores, edit_recipe(nobody(), form)).unwrap_err();
    assert_eq!(error.kind, ErrorKind::Auth(AuthError::MissingHeader));
    assert!(stores.log.is_empty());
}

#[test]
fn reading_a_recipe_that_is_not_there_is_not_found() {
    let mut stores = stores();
    let error = run_read(&mut stores, get_recipe(5)).unwrap_err();
    assert_eq!(error.kind, ErrorKind::Storage(StorageError::NotFound));
    assert_eq!(error.error, "Failed to get recipe with id: 5");
    assert_eq!(error.description, "No recipe with this id");
}

#[test]
fn reading_from_a_table_that_fails_is_a_db_failure() {
    let mut stores = stores();
    stores.rows_fail = true;
    let error = run_read(&mut stores, get_recipe(-5)).unwrap_err();
    assert_eq!(error.kind, ErrorKind::Storage(StorageError::DbFailure));
    assert_eq!(error.error, "Failed to get recipe with id: -5");
    assert_eq!(error.description, "connection refused");
}

#[test]
fn a_row_without_document_is_not_found() {
    let mut stores = stores();
    let id = run_create(&mut stores, create_recipe(alice(), plain(soup()))).unwrap();
    stores.documents.clear();
    let error = run_read(&mut stores, get_recipe(id)).unwrap_err();
    assert_eq!(error.kind, ErrorKind::Storage(StorageError::NotFound));
    assert_eq!(error.error, "Recipe file is invalid");
}

#[test]
fn a_corrupt_document_is_reported_as_such() {
    let saga = ReadSaga::Reading {
        row: RecipeWithPoster {
            poster: Poster { uid: 7, username: "alice".to_string(), picture: None },
            id: 3,
            recipe_file_path: "7-abc".to_string(),
            date_created: 0,
            thumbnail_path: None,
        },
    };
    match saga.step(StoreReply::Corrupt("expected value at line 1".to_string())) {
        Progress::Finish(Err(error)) => {
            assert_eq!(error.kind, ErrorKind::Storage(StorageError::Corrupt));
            assert_eq!(error.description, "expected value at line 1");
            assert_eq!(error.render().0, 500);
        }
        other => panic!("not failed: {:?}", other),
    }
}

#[test]
fn an_unexpected_reply_is_a_failure() {
    let saga = ReadSaga::Loading { recipe_id: 3 };
    match saga.step(StoreReply::Done) {
        Progress::Finish(Err(error)) => {
            assert_eq!(error.kind, ErrorKind::Storage(StorageError::DbFailure));
            assert_eq!(error.description, "Unexpected reply from the store");
        }
        other => panic!("not failed: {:?}", other),
    }
}

#[test]
fn the_owner_may_edit_and_is_shown_the_recipe() {
    let mut stores = stores();
    let id = run_create(&mut stores, create_recipe(alice(), plain(soup()))).unwrap();
    let permission = run_permission(&mut stores, can_edit(alice(), id)).unwrap();
    assert!(permission.authorized);
    assert_eq!(permission.recipe.expect("a recipe").recipe.title, "Soup");
}

#[test]
fn a_stranger_may_not_edit_and_is_shown_nothing() {
    let mut stores = stores();
    let id = run_create(&mut stores, create_recipe(alice(), plain(soup()))).unwrap();
    let asked_before = stores.log.len();
    let permission = run_permission(&mut stores, can_edit(bob(), id)).unwrap();
    assert!(!permission.authorized);
    assert!(permission.recipe.is_none());
    assert_eq!(stores.log[asked_before..], [format!("owner {}", id)]);
}

#[test]
fn asking_for_permission_needs_a_known_caller_and_a_recipe() {
    let mut stores = stores();
    let error = run_permission(&mut stores, can_edit(nobody(), 1)).unwrap_err();
    assert_eq!(error.kind, ErrorKind::Auth(AuthError::MissingHeader));
    let error = run_permission(&mut stores, can_edit(alice(), 1)).unwrap_err();
    assert_eq!(error.kind, ErrorKind::Storage(StorageError::NotFound));
    stores.rows_fail = true;
    let error = run_permission(&mut stores, can_edit(alice(), 1)).unwrap_err();
    assert_eq!(error.kind, ErrorKind::Storage(StorageError::DbFailure));
    assert_eq!(error.error, "Failed to get poster of recipe with id: 1");
}

#[test]
fn a_list_holds_at_most_ten_recipes_in_ascending_order() {
    let mut stores = stores();
    for _ in 0..13 {
        run_create(&mut stores, create_recipe(alice(), plain(soup()))).unwrap();
    }
    let params = GetRecipeQueryParams { offset: None, limit: Some(500) };
    let list = run_list(&mut stores, get_recipes(params)).unwrap().0;
    assert_eq!(list.len(), 10);
    let ids: Vec<i32> = list.iter().map(|s| s.id).collect();
    assert_eq!(ids, (1..=10).collect::<Vec<i32>>());
    let list = run_list(&mut stores, get_recipes(GetRecipeQueryParams { offset: None, limit: None }))
        .unwrap()
        .0;
    assert_eq!(list.iter().map(|s| s.id).collect::<Vec<i32>>(), (1..=10).collect::<Vec<i32>>());
    let params = GetRecipeQueryParams { offset: Some(10), limit: Some(500) };
    let list = run_list(&mut stores, get_recipes(params)).unwrap().0;
    assert_eq!(list.iter().map(|s| s.id).collect::<Vec<i32>>(), vec![11, 12, 13]);
}

#[test]
fn a_list_shows_the_head_of_each_document() {
    let mut stores = stores();
    run_create(&mut stores, create_recipe(alice(), plain(soup()))).unwrap();
    run_create(&mut stores, create_recipe(bob(), plain(stew()))).unwrap();
    let list = run_list(&mut stores, get_recipes(GetRecipeQueryParams { offset: None, limit: None }))
        .unwrap()
        .0;
    assert_eq!(list.len(), 2);
    assert_eq!(list[0].title, "Soup");
    assert_eq!(list[0].description, "Warm soup");
    assert_eq!(list[0].poster.uid, 7);
    assert_eq!(list[1].title, "Stew");
    assert_eq!(list[1].poster.uid, 8);
}

#[test]
fn an_empty_table_lists_as_an_empty_list() {
    let mut stores = stores();
    let list = run_list(&mut stores, get_recipes(GetRecipeQueryParams { offset: None, limit: None }))
        .unwrap()
        .0;
    assert!(list.is_empty());
}

#[test]
fn a_list_ends_at_a_document_that_cannot_be_had() {
    let mut stores = stores();
    run_create(&mut stores, create_recipe(alice(), plain(soup()))).unwrap();
    stores.documents.clear();
    let error =
        run_list(&mut stores, get_recipes(GetRecipeQueryParams { offset: None, limit: None }))
            .unwrap_err();
    assert_eq!(error.kind, ErrorKind::Storage(StorageError::NotFound));
    stores.rows_fail = true;
    let error =
        run_list(&mut stores, get_recipes(GetRecipeQueryParams { offset: None, limit: None }))
            .unwrap_err();
    assert_eq!(error.kind, ErrorKind::Storage(StorageError::DbFailure));
    assert_eq!(error.error, "Failed to get recipes");
}

#[test]
fn the_recipes_of_one_poster() {
    let mut stores = stores();
    run_create(&mut stores, create_recipe(alice(), plain(soup()))).unwrap();
    run_create(&mut stores, create_recipe(bob(), plain(stew()))).unwrap();
    run_create(&mut stores, create_recipe(alice(), plain(stew()))).unwrap();
    let list = run_list(&mut stores, get_recipe_by_poster(7)).unwrap().0;
    assert_eq!(list.iter().map(|s| s.id).collect::<Vec<i32>>(), vec![1, 3]);
    assert!(list.iter().all(|s| s.poster.uid == 7));
}

#[test]
fn a_poster_without_recipes_is_not_found() {
    let mut stores = stores();
    run_create(&mut stores, create_recipe(alice(), plain(soup()))).unwrap();
    let error = run_list(&mut stores, get_recipe_by_poster(9)).unwrap_err();
    assert_eq!(error.kind, ErrorKind::Storage(StorageError::NotFound));
    assert_eq!(error.error, "No recipes found");
    assert_eq!(error.description, "Couldn't find any recipes from the user with id: 9");
}

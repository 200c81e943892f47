use crate::extractors::auth::AuthorizedView;
use crate::recipe_io::{
    document_fault, document_is_valid, lemma_duplicate_order_is_reported,
    lemma_fault_none_iff_valid, steps_plain, RecipeFileJsonView,
};
use crate::helpers::is_plain_text;
use crate::routes::error::{ErrorKind, StorageError, ValidationError};
use crate::database::models::recipe::RecipeWithPosterView;
use crate::routes::recipes::helpers::{
    effective_limit, effective_offset, FullRecipePayloadView, GetRecipeQueryParams, PAGE_LIMIT,
};
use crate::routes::recipes::services::{
    create_begins, create_next, edit_begins, edit_next, list_begins, list_goes_on, list_next,
    not_owner, read_next, refused_recipe, CreateSagaView, EditSagaView, ListSagaView,
    ProgressView, ReadSagaView, RecipeSummaryView, ThumbnailView,
};
use crate::routes::recipes::store::{RecipeRecord, StoreReplyView, StoreRequestView, Stores};
use vstd::prelude::*;

verus! {

/// Where a handler and the stores stand once the stores have answered with
/// `replies`, one reply to each request, for as long as the handler asks and there
/// are replies left.
pub open spec fn run<S, T>(
    next: spec_fn(S, StoreReplyView) -> ProgressView<S, T>,
    stores: Stores,
    progress: ProgressView<S, T>,
    replies: Seq<StoreReplyView>,
) -> (Stores, ProgressView<S, T>)
    decreases replies.len(),
{
    match progress {
        ProgressView::Ask(saga, request) => if replies.len() > 0 {
            run(
                next,
                stores.after(request, replies[0]),
                next(saga, replies[0]),
                replies.drop_first(),
            )
        } else {
            (stores, progress)
        },
        _ => (stores, progress),
    }
}

/// Whether each of `replies` is an answer that the stores, as they stand by then,
/// can give to the request it replies to.
pub open spec fn answered<S, T>(
    next: spec_fn(S, StoreReplyView) -> ProgressView<S, T>,
    stores: Stores,
    progress: ProgressView<S, T>,
    replies: Seq<StoreReplyView>,
) -> bool
    decreases replies.len(),
{
    match progress {
        ProgressView::Ask(saga, request) => if replies.len() > 0 {
            &&& stores.answers(request, replies[0])
            &&& answered(
                next,
                stores.after(request, replies[0]),
                next(saga, replies[0]),
                replies.drop_first(),
            )
        } else {
            true
        },
        _ => true,
    }
}

/// How the creation of a recipe goes on.
pub open spec fn creating() -> spec_fn(CreateSagaView, StoreReplyView) -> ProgressView<
    CreateSagaView,
    i32,
> {
    |saga: CreateSagaView, reply: StoreReplyView| create_next(saga, reply)
}

/// How the editing of a recipe goes on.
pub open spec fn editing() -> spec_fn(EditSagaView, StoreReplyView) -> ProgressView<
    EditSagaView,
    (),
> {
    |saga: EditSagaView, reply: StoreReplyView| edit_next(saga, reply)
}

/// How the reading of a recipe goes on.
pub open spec fn reading() -> spec_fn(ReadSagaView, StoreReplyView) -> ProgressView<
    ReadSagaView,
    FullRecipePayloadView,
> {
    |saga: ReadSagaView, reply: StoreReplyView| read_next(saga, reply)
}

/// The first request of a reading of the recipe `recipe_id`.
pub open spec fn read_begins(recipe_id: i32) -> ProgressView<ReadSagaView, FullRecipePayloadView> {
    ProgressView::Ask(ReadSagaView::Loading { recipe_id }, StoreRequestView::LoadRecipe { recipe_id })
}

/// A recipe with a fault is refused for that fault before anything is asked of the
/// stores: neither a document nor a row is left behind.
pub proof fn law_faulty_recipe_writes_nothing(
    stores: Stores,
    owner: i32,
    username: Seq<char>,
    document: RecipeFileJsonView,
    document_ref: Seq<char>,
    thumbnail: Option<ThumbnailView>,
    replies: Seq<StoreReplyView>,
)
    requires
        document_fault(document) is Some,
    ensures
        ({
            let begun = create_begins(
                AuthorizedView::Passed(owner, username),
                Some(document),
                document_ref,
                thumbnail,
            );
            &&& begun == ProgressView::<CreateSagaView, i32>::Failed(
                refused_recipe(document_fault(document)->0),
            )
            &&& run(creating(), stores, begun, replies) == (stores, begun)
        }),
{
}

/// A recipe whose texts are plain and in which two steps share an order is refused
/// for the duplicate, and nothing is written.
pub proof fn law_duplicate_order_writes_nothing(
    stores: Stores,
    owner: i32,
    username: Seq<char>,
    document: RecipeFileJsonView,
    i: int,
    j: int,
    document_ref: Seq<char>,
    thumbnail: Option<ThumbnailView>,
    replies: Seq<StoreReplyView>,
)
    requires
        is_plain_text(document.title),
        is_plain_text(document.description),
        steps_plain(document.steps),
        0 <= i < j < document.steps.len(),
        document.steps[i].order == document.steps[j].order,
    ensures
        ({
            let begun = create_begins(
                AuthorizedView::Passed(owner, username),
                Some(document),
                document_ref,
                thumbnail,
            );
            &&& begun matches ProgressView::Failed(error) && error.kind == ErrorKind::Validation(
                ValidationError::DuplicateStepOrder,
            )
            &&& run(creating(), stores, begun, replies) == (stores, begun)
        }),
{
    lemma_duplicate_order_is_reported(document, i, j);
}

/// When the creation of a valid recipe ends with an id, the row under that id names
/// the caller as owner and the document as written, and the document holds what was
/// submitted. This holds whatever becomes of the thumbnail.
pub proof fn law_created_recipe_is_on_record(
    stores: Stores,
    owner: i32,
    username: Seq<char>,
    document: RecipeFileJsonView,
    document_ref: Seq<char>,
    thumbnail: Option<ThumbnailView>,
    replies: Seq<StoreReplyView>,
)
    requires
        document_is_valid(document),
    ensures
        ({
            let begun = create_begins(
                AuthorizedView::Passed(owner, username),
                Some(document),
                document_ref,
                thumbnail,
            );
            let (after, end) = run(creating(), stores, begun, replies);
            end matches ProgressView::Done(recipe_id) ==> {
                &&& after.recipes.contains_key(recipe_id)
                &&& after.recipes[recipe_id] == RecipeRecord { owner, document_ref }
                &&& after.documents.contains_key(document_ref)
                &&& after.documents[document_ref] == document
            }
        }),
{
    lemma_fault_none_iff_valid(document);
    reveal_with_fuel(run, 6);
}

/// Reading a recipe changes nothing in the stores, and what it shows is the row
/// under that id together with the document that the row names.
pub proof fn law_reading_shows_what_is_stored(
    stores: Stores,
    recipe_id: i32,
    replies: Seq<StoreReplyView>,
)
    requires
        answered(reading(), stores, read_begins(recipe_id), replies),
    ensures
        ({
            let (after, end) = run(reading(), stores, read_begins(recipe_id), replies);
            &&& after == stores
            &&& end matches ProgressView::Done(payload) ==> {
                &&& stores.recipes.contains_key(recipe_id)
                &&& payload.id == recipe_id
                &&& payload.poster.uid == stores.recipes[recipe_id].owner
                &&& payload.thumbnail == stores.thumbnail_of(recipe_id)
                &&& stores.documents.contains_key(stores.recipes[recipe_id].document_ref)
                &&& payload.recipe == stores.documents[stores.recipes[recipe_id].document_ref]
            }
        }),
{
    reveal_with_fuel(run, 4);
    reveal_with_fuel(answered, 4);
}

/// A valid recipe that was created and is then read by the id that the creation
/// returned comes back as it was submitted, under the caller's id.
pub proof fn law_created_recipe_reads_back(
    stores: Stores,
    owner: i32,
    username: Seq<char>,
    document: RecipeFileJsonView,
    document_ref: Seq<char>,
    thumbnail: Option<ThumbnailView>,
    creation: Seq<StoreReplyView>,
    recipe_id: i32,
    lookup: Seq<StoreReplyView>,
)
    requires
        document_is_valid(document),
        run(
            creating(),
            stores,
            create_begins(
                AuthorizedView::Passed(owner, username),
                Some(document),
                document_ref,
                thumbnail,
            ),
            creation,
        ).1 == ProgressView::<CreateSagaView, i32>::Done(recipe_id),
        answered(
            reading(),
            run(
                creating(),
                stores,
                create_begins(
                    AuthorizedView::Passed(owner, username),
                    Some(document),
                    document_ref,
                    thumbnail,
                ),
                creation,
            ).0,
            read_begins(recipe_id),
            lookup,
        ),
    ensures
        ({
            let created = run(
                creating(),
                stores,
                create_begins(
                    AuthorizedView::Passed(owner, username),
                    Some(document),
                    document_ref,
                    thumbnail,
                ),
                creation,
            ).0;
            run(reading(), created, read_begins(recipe_id), lookup).1 matches ProgressView::Done(
                payload,
            ) ==> payload.recipe == document && payload.id == recipe_id && payload.poster.uid
                == owner
        }),
{
    law_created_recipe_is_on_record(
        stores,
        owner,
        username,
        document,
        document_ref,
        thumbnail,
        creation,
    );
    let created = run(
        creating(),
        stores,
        create_begins(
            AuthorizedView::Passed(owner, username),
            Some(document),
            document_ref,
            thumbnail,
        ),
        creation,
    ).0;
    law_reading_shows_what_is_stored(created, recipe_id, lookup);
}

/// A creation that fails for anything but its thumbnail leaves the recipe table as
/// it was. It fails for the recipe table only after three requests: the document was
/// written, the row was refused, and the document was to be removed again; where that
/// removal was carried out, no document is left under the name either.
pub proof fn law_failed_creation_leaves_no_row(
    stores: Stores,
    authorized: AuthorizedView,
    recipe: Option<RecipeFileJsonView>,
    document_ref: Seq<char>,
    thumbnail: Option<ThumbnailView>,
    replies: Seq<StoreReplyView>,
)
    ensures
        ({
            let begun = create_begins(authorized, recipe, document_ref, thumbnail);
            let (after, end) = run(creating(), stores, begun, replies);
            end matches ProgressView::Failed(error) ==> {
                &&& error.kind != ErrorKind::Validation(ValidationError::UnsupportedMedia)
                    ==> after.recipes == stores.recipes
                &&& error.kind == ErrorKind::Storage(StorageError::DbFailure) ==> replies.len() >= 3
                &&& error.kind == ErrorKind::Storage(StorageError::DbFailure) && replies[2] is Done
                    ==> !after.documents.contains_key(document_ref)
            }
        }),
{
    reveal_with_fuel(run, 6);
}

/// An edit that does not succeed changes nothing in the stores. One by a caller who
/// is not the owner of the recipe never succeeds, and is refused as such as soon as
/// the row is there.
pub proof fn law_edit_by_stranger_changes_nothing(
    stores: Stores,
    uid: i32,
    username: Seq<char>,
    recipe_id: i32,
    replacement: Option<RecipeFileJsonView>,
    replies: Seq<StoreReplyView>,
)
    requires
        answered(
            editing(),
            stores,
            edit_begins(AuthorizedView::Passed(uid, username), recipe_id, replacement),
            replies,
        ),
    ensures
        ({
            let begun = edit_begins(AuthorizedView::Passed(uid, username), recipe_id, replacement);
            let (after, end) = run(editing(), stores, begun, replies);
            &&& !(end is Done) ==> after == stores
            &&& stores.recipes.contains_key(recipe_id) && stores.recipes[recipe_id].owner != uid ==> {
                &&& after == stores
                &&& !(end is Done)
                &&& replies.len() > 0 && replies[0] is Recipe ==> end == ProgressView::<
                    EditSagaView,
                    (),
                >::Failed(not_owner())
            }
        }),
{
    reveal_with_fuel(run, 4);
    reveal_with_fuel(answered, 4);
}

/// When an edit succeeds, the document that the row names holds the replacement,
/// and nothing else in the stores has changed.
pub proof fn law_edited_recipe_holds_the_replacement(
    stores: Stores,
    uid: i32,
    username: Seq<char>,
    recipe_id: i32,
    replacement: Option<RecipeFileJsonView>,
    replies: Seq<StoreReplyView>,
)
    requires
        answered(
            editing(),
            stores,
            edit_begins(AuthorizedView::Passed(uid, username), recipe_id, replacement),
            replies,
        ),
    ensures
        ({
            let begun = edit_begins(AuthorizedView::Passed(uid, username), recipe_id, replacement);
            let (after, end) = run(editing(), stores, begun, replies);
            end is Done ==> {
                &&& replacement matches Some(document) && document_is_valid(document)
                &&& stores.recipes.contains_key(recipe_id)
                &&& stores.recipes[recipe_id].owner == uid
                &&& after.documents == stores.documents.insert(
                    stores.recipes[recipe_id].document_ref,
                    replacement->0,
                )
                &&& after.recipes == stores.recipes
                &&& after.thumbnails == stores.thumbnails
            }
        }),
{
    reveal_with_fuel(run, 4);
    reveal_with_fuel(answered, 4);
    if replacement is Some {
        lemma_fault_none_iff_valid(replacement->0);
    }
}

/// Once the row of a new recipe is in, nothing that happens to the thumbnail undoes
/// the recipe: whatever the stores answer afterwards, the row and the document stay.
pub proof fn law_thumbnail_never_undoes_recipe(
    stores: Stores,
    owner: i32,
    username: Seq<char>,
    document: RecipeFileJsonView,
    document_ref: Seq<char>,
    thumbnail: Option<ThumbnailView>,
    recipe_id: i32,
    later: Seq<StoreReplyView>,
)
    requires
        document_is_valid(document),
    ensures
        ({
            let begun = create_begins(
                AuthorizedView::Passed(owner, username),
                Some(document),
                document_ref,
                thumbnail,
            );
            let replies = seq![StoreReplyView::Done, StoreReplyView::Inserted(recipe_id)] + later;
            let (after, end) = run(creating(), stores, begun, replies);
            &&& after.recipes.contains_key(recipe_id)
            &&& after.recipes[recipe_id] == RecipeRecord { owner, document_ref }
            &&& after.documents.contains_key(document_ref)
            &&& after.documents[document_ref] == document
            &&& end matches ProgressView::Failed(error) ==> error.kind == ErrorKind::Validation(
                ValidationError::UnsupportedMedia,
            )
        }),
{
    lemma_fault_none_iff_valid(document);
    reveal_with_fuel(run, 6);
}

/// How the listing of recipes goes on.
pub open spec fn listing() -> spec_fn(ListSagaView, StoreReplyView) -> ProgressView<
    ListSagaView,
    Seq<RecipeSummaryView>,
> {
    |saga: ListSagaView, reply: StoreReplyView| list_next(saga, reply)
}

/// The ids of the rows `rows`, in their order.
pub open spec fn row_ids(rows: Seq<RecipeWithPosterView>) -> Seq<i32> {
    rows.map_values(|row: RecipeWithPosterView| row.id)
}

/// The ids of the recipes in `list`, in their order.
pub open spec fn listed_ids(list: Seq<RecipeSummaryView>) -> Seq<i32> {
    list.map_values(|summary: RecipeSummaryView| summary.id)
}

/// Summing up rows changes nothing in the stores, and a list that comes of it holds
/// the recipes summed up before, then one recipe for each row, in the order of the
/// rows.
pub proof fn lemma_listing_follows_rows(
    stores: Stores,
    poster: Option<i32>,
    rows: Seq<RecipeWithPosterView>,
    done: Seq<RecipeSummaryView>,
    replies: Seq<StoreReplyView>,
)
    ensures
        ({
            let (after, end) = run(listing(), stores, list_goes_on(poster, rows, done), replies);
            &&& after == stores
            &&& end matches ProgressView::Done(list) ==> listed_ids(list) == listed_ids(done)
                + row_ids(rows)
        }),
    decreases rows.len(),
{
    reveal_with_fuel(run, 2);
    if rows.len() > 0 && replies.len() > 0 {
        match replies[0] {
            StoreReplyView::Document(document) => {
                let entry = crate::routes::recipes::services::summed_up(rows[0], document);
                lemma_listing_follows_rows(
                    stores,
                    poster,
                    rows.drop_first(),
                    done.push(entry),
                    replies.drop_first(),
                );
                assert(listed_ids(done.push(entry)) + row_ids(rows.drop_first()) == listed_ids(
                    done,
                ) + row_ids(rows));
            },
            _ => {},
        }
    }
}

/// Whatever a caller asks for, a list of recipes holds at most `PAGE_LIMIT` of them,
/// in ascending order of their ids, beginning at the place asked for, or at the first
/// recipe of the table where no place was asked for. A list is shorter than the limit
/// in force only where the table ends: no recipe stands at a place after the last
/// one listed. Listing changes nothing in the stores.
pub proof fn law_listed_page_is_bounded(
    stores: Stores,
    params: GetRecipeQueryParams,
    replies: Seq<StoreReplyView>,
)
    requires
        answered(listing(), stores, list_begins(params), replies),
    ensures
        ({
            let (after, end) = run(listing(), stores, list_begins(params), replies);
            &&& after == stores
            &&& end matches ProgressView::Done(list) ==> {
                &&& list.len() <= PAGE_LIMIT
                &&& forall|i: int, j: int| 0 <= i < j < list.len() ==> list[i].id < list[j].id
                &&& forall|i: int|
                    0 <= i < list.len() ==> stores.rank(#[trigger] list[i].id) == effective_offset(
                        params.offset,
                    ) + i
                &&& list.len() < effective_limit(params.limit) ==> forall|id: i32|
                    stores.recipes.contains_key(id) ==> #[trigger] stores.rank(id)
                        < effective_offset(params.offset) + list.len()
            }
        }),
{
    reveal_with_fuel(run, 2);
    reveal_with_fuel(answered, 2);
    if replies.len() > 0 {
        match replies[0] {
            StoreReplyView::Recipes(rows) => {
                let none = Seq::<RecipeSummaryView>::empty();
                lemma_listing_follows_rows(stores, None, rows, none, replies.drop_first());
                let end = run(listing(), stores, list_begins(params), replies).1;
                match end {
                    ProgressView::Done(list) => {
                        assert forall|i: int| 0 <= i < list.len() implies stores.rank(
                            #[trigger] list[i].id,
                        ) == effective_offset(params.offset) + i by {
                            assert(listed_ids(list)[i] == list[i].id);
                        }
                        assert forall|i: int, j: int| 0 <= i < j < list.len() implies list[i].id
                            < list[j].id by {
                            assert(listed_ids(list)[i] == list[i].id);
                            assert(listed_ids(list)[j] == list[j].id);
                        }
                    },
                    _ => {},
                }
            },
            _ => {},
        }
    }
}

} // verus!

use crate::database::models::recipe::{RecipeWithPoster, RecipeWithPosterView};
use crate::recipe_io::{RecipeFileJson, RecipeFileJsonView};
use vstd::prelude::*;

verus! {

/// What a handler asks of the two stores. The handler decides; whoever runs it
/// performs the request and hands back the reply.
#[derive(Debug)]
pub enum StoreRequest {
    /// Write the document under this name, over whatever is there.
    WriteDocument { document_ref: String, document: RecipeFileJson },
    /// Read the document of this name.
    ReadDocument { document_ref: String },
    /// Remove the document of this name, if there is one.
    DeleteDocument { document_ref: String },
    /// Insert a row for a recipe of `owner` whose document is `document_ref`.
    InsertRecipe { document_ref: String, owner: i32 },
    /// Load the row of this recipe, with its poster and thumbnail.
    LoadRecipe { recipe_id: i32 },
    /// Look up who owns this recipe.
    LoadOwner { recipe_id: i32 },
    /// List the rows in ascending order of their ids: pass over `offset` rows, hand
    /// out at most `limit`.
    ListPage { offset: u32, limit: u32 },
    /// List the rows of the recipes that this user posted.
    ListByPoster { uid: i32 },
    /// Move the uploaded thumbnail to its place among the thumbnails.
    MoveThumbnail { stored_as: String },
    /// Record `path` as the thumbnail of this recipe, in place of any other.
    UpsertThumbnail { recipe_id: i32, path: String },
}

/// A `StoreRequest` as plain values, as contracts speak of it.
pub enum StoreRequestView {
    WriteDocument { document_ref: Seq<char>, document: RecipeFileJsonView },
    ReadDocument { document_ref: Seq<char> },
    DeleteDocument { document_ref: Seq<char> },
    InsertRecipe { document_ref: Seq<char>, owner: i32 },
    LoadRecipe { recipe_id: i32 },
    LoadOwner { recipe_id: i32 },
    ListPage { offset: u32, limit: u32 },
    ListByPoster { uid: i32 },
    MoveThumbnail { stored_as: Seq<char> },
    UpsertThumbnail { recipe_id: i32, path: Seq<char> },
}

impl View for StoreRequest {
    type V = StoreRequestView;

    open spec fn view(&self) -> StoreRequestView {
        match *self {
            StoreRequest::WriteDocument { document_ref, document } => StoreRequestView::WriteDocument {
                document_ref: document_ref@,
                document: document@,
            },
            StoreRequest::ReadDocument { document_ref } => StoreRequestView::ReadDocument {
                document_ref: document_ref@,
            },
            StoreRequest::DeleteDocument { document_ref } => StoreRequestView::DeleteDocument {
                document_ref: document_ref@,
            },
            StoreRequest::InsertRecipe { document_ref, owner } => StoreRequestView::InsertRecipe {
                document_ref: document_ref@,
                owner,
            },
            StoreRequest::LoadRecipe { recipe_id } => StoreRequestView::LoadRecipe { recipe_id },
            StoreRequest::LoadOwner { recipe_id } => StoreRequestView::LoadOwner { recipe_id },
            StoreRequest::ListPage { offset, limit } => StoreRequestView::ListPage { offset, limit },
            StoreRequest::ListByPoster { uid } => StoreRequestView::ListByPoster { uid },
            StoreRequest::MoveThumbnail { stored_as } => StoreRequestView::MoveThumbnail {
                stored_as: stored_as@,
            },
            StoreRequest::UpsertThumbnail { recipe_id, path } => StoreRequestView::UpsertThumbnail {
                recipe_id,
                path: path@,
            },
        }
    }
}

/// What the stores answer.
#[derive(Debug)]
pub enum StoreReply {
    /// The write, removal or move was carried out.
    Done,
    /// The store failed; the text says how.
    Failed(String),
    /// There is nothing under that name or id.
    Missing,
    /// The document is there but cannot be read as a recipe; the text says why.
    Corrupt(String),
    /// The row was inserted under this id.
    Inserted(i32),
    /// The row that was asked for.
    Recipe(RecipeWithPoster),
    /// The id of the user who owns the recipe.
    Owner(i32),
    /// The rows that were asked for.
    Recipes(Vec<RecipeWithPoster>),
    /// The document that was asked for.
    Document(RecipeFileJson),
}

/// A `StoreReply` as plain values, as contracts speak of it.
pub enum StoreReplyView {
    Done,
    Failed(Seq<char>),
    Missing,
    Corrupt(Seq<char>),
    Inserted(i32),
    Recipe(RecipeWithPosterView),
    Owner(i32),
    Recipes(Seq<RecipeWithPosterView>),
    Document(RecipeFileJsonView),
}

impl View for StoreReply {
    type V = StoreReplyView;

    open spec fn view(&self) -> StoreReplyView {
        match *self {
            StoreReply::Done => StoreReplyView::Done,
            StoreReply::Failed(cause) => StoreReplyView::Failed(cause@),
            StoreReply::Missing => StoreReplyView::Missing,
            StoreReply::Corrupt(cause) => StoreReplyView::Corrupt(cause@),
            StoreReply::Inserted(id) => StoreReplyView::Inserted(id),
            StoreReply::Recipe(row) => StoreReplyView::Recipe(row@),
            StoreReply::Owner(uid) => StoreReplyView::Owner(uid),
            StoreReply::Recipes(rows) => StoreReplyView::Recipes(
                rows@.map_values(|row: RecipeWithPoster| row@),
            ),
            StoreReply::Document(document) => StoreReplyView::Document(document@),
        }
    }
}

/// What the recipe table holds of a recipe.
pub struct RecipeRecord {
    pub owner: i32,
    pub document_ref: Seq<char>,
}

/// The two stores as a handler may think of them: the documents by name, the rows of
/// the recipe table by id, and the recorded thumbnails by recipe id.
pub struct Stores {
    pub documents: Map<Seq<char>, RecipeFileJsonView>,
    pub recipes: Map<i32, RecipeRecord>,
    pub thumbnails: Map<i32, Seq<char>>,
}

impl Stores {
    /// The thumbnail recorded for a recipe, if there is one.
    pub open spec fn thumbnail_of(self, recipe_id: i32) -> Option<Seq<char>> {
        if self.thumbnails.contains_key(recipe_id) {
            Some(self.thumbnails[recipe_id])
        } else {
            None
        }
    }

    /// How many recipes have an id below `recipe_id`: the place of the recipe in a
    /// listing in ascending order of the ids, counted from 0.
    pub open spec fn rank(self, recipe_id: i32) -> nat {
        self.recipes.dom().filter(|id: i32| id < recipe_id).len()
    }

    /// Whether `row` shows the recipe `recipe_id` as the stores hold it.
    pub open spec fn shows(self, recipe_id: i32, row: RecipeWithPosterView) -> bool {
        &&& self.recipes.contains_key(recipe_id)
        &&& row.id == recipe_id
        &&& row.poster.uid == self.recipes[recipe_id].owner
        &&& row.recipe_file_path == self.recipes[recipe_id].document_ref
        &&& row.thumbnail_path == self.thumbnail_of(recipe_id)
    }

    /// Whether `reply` is an answer that stores in this state can give to `request`. A
    /// store may fail at any time; what it hands out is what it holds. A page holds
    /// the recipes from place `offset` on, in ascending order of their ids, and stops
    /// short of `limit` only where the table ends.
    pub open spec fn answers(self, request: StoreRequestView, reply: StoreReplyView) -> bool {
        match (request, reply) {
            (_, StoreReplyView::Failed(_)) => true,
            (StoreRequestView::WriteDocument { .. }, StoreReplyView::Done) => true,
            (StoreRequestView::DeleteDocument { .. }, StoreReplyView::Done) => true,
            (StoreRequestView::MoveThumbnail { .. }, StoreReplyView::Done) => true,
            (StoreRequestView::UpsertThumbnail { .. }, StoreReplyView::Done) => true,
            (
                StoreRequestView::ReadDocument { document_ref },
                StoreReplyView::Document(document),
            ) => self.documents.contains_key(document_ref) && self.documents[document_ref]
                == document,
            (StoreRequestView::ReadDocument { document_ref }, StoreReplyView::Missing) =>
                !self.documents.contains_key(document_ref),
            (StoreRequestView::InsertRecipe { .. }, StoreReplyView::Inserted(id)) =>
                !self.recipes.contains_key(id),
            (StoreRequestView::LoadRecipe { recipe_id }, StoreReplyView::Recipe(row)) => self.shows(
                recipe_id,
                row,
            ),
            (StoreRequestView::LoadRecipe { recipe_id }, StoreReplyView::Missing) =>
                !self.recipes.contains_key(recipe_id),
            (StoreRequestView::LoadOwner { recipe_id }, StoreReplyView::Owner(uid)) =>
                self.recipes.contains_key(recipe_id) && self.recipes[recipe_id].owner == uid,
            (StoreRequestView::LoadOwner { recipe_id }, StoreReplyView::Missing) =>
                !self.recipes.contains_key(recipe_id),
            (StoreRequestView::ListPage { offset, limit }, StoreReplyView::Recipes(rows)) => {
                &&& rows.len() <= limit
                &&& forall|i: int| 0 <= i < rows.len() ==> self.shows((#[trigger] rows[i]).id, rows[i])
                &&& forall|i: int, j: int|
                    0 <= i < j < rows.len() ==> (#[trigger] rows[i]).id < (#[trigger] rows[j]).id
                &&& forall|i: int| 0 <= i < rows.len() ==> self.rank((#[trigger] rows[i]).id) == offset + i
                &&& rows.len() < limit ==> forall|id: i32|
                    self.recipes.contains_key(id) && #[trigger] self.rank(id) >= offset + rows.len()
                        ==> false
            },
            (StoreRequestView::ListByPoster { uid }, StoreReplyView::Recipes(rows)) => {
                forall|i: int|
                    0 <= i < rows.len() ==> self.shows((#[trigger] rows[i]).id, rows[i])
                        && rows[i].poster.uid == uid
            },
            _ => false,
        }
    }

    /// The stores once `request` has been performed and answered with `reply`. Only
    /// a request that was carried out changes anything.
    pub open spec fn after(self, request: StoreRequestView, reply: StoreReplyView) -> Stores {
        match (request, reply) {
            (
                StoreRequestView::WriteDocument { document_ref, document },
                StoreReplyView::Done,
            ) => Stores { documents: self.documents.insert(document_ref, document), ..self },
            (StoreRequestView::DeleteDocument { document_ref }, StoreReplyView::Done) => Stores {
                documents: self.documents.remove(document_ref),
                ..self
            },
            (
                StoreRequestView::InsertRecipe { document_ref, owner },
                StoreReplyView::Inserted(id),
            ) => Stores {
                recipes: self.recipes.insert(id, RecipeRecord { owner, document_ref }),
                ..self
            },
            (StoreRequestView::UpsertThumbnail { recipe_id, path }, StoreReplyView::Done) => Stores {
                thumbnails: self.thumbnails.insert(recipe_id, path),
                ..self
            },
            _ => self,
        }
    }
}

} // verus!

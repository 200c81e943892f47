use vstd::prelude::*;

verus! {

/// A row of the recipe table. The content of the recipe is not in the row: it lies in
/// the document that `recipe_file_path` names.
#[derive(Debug)]
pub struct Recipe {
    pub id: i32,
    pub recipe_file_path: String,
    pub user_id: i32,
    /// When the row was made, in seconds since the epoch.
    pub date_created: i64,
}

/// The user who posted a recipe.
#[derive(Debug)]
pub struct Poster {
    pub uid: i32,
    pub username: String,
    pub picture: Option<String>,
}

/// A `Poster` as plain values, as contracts speak of it.
pub struct PosterView {
    pub uid: i32,
    pub username: Seq<char>,
    pub picture: Option<Seq<char>>,
}

/// The text of an optional string.
pub open spec fn text_of(s: Option<String>) -> Option<Seq<char>> {
    match s {
        Some(s) => Some(s@),
        None => None,
    }
}

impl View for Poster {
    type V = PosterView;

    open spec fn view(&self) -> PosterView {
        PosterView { uid: self.uid, username: self.username@, picture: text_of(self.picture) }
    }
}

/// A recipe row joined with its poster and its thumbnail, if it has one.
#[derive(Debug)]
pub struct RecipeWithPoster {
    pub poster: Poster,
    pub id: i32,
    pub recipe_file_path: String,
    /// When the row was made, in seconds since the epoch.
    pub date_created: i64,
    pub thumbnail_path: Option<String>,
}

/// A `RecipeWithPoster` as plain values, as contracts speak of it.
pub struct RecipeWithPosterView {
    pub poster: PosterView,
    pub id: i32,
    pub recipe_file_path: Seq<char>,
    pub date_created: i64,
    pub thumbnail_path: Option<Seq<char>>,
}

impl View for RecipeWithPoster {
    type V = RecipeWithPosterView;

    open spec fn view(&self) -> RecipeWithPosterView {
        RecipeWithPosterView {
            poster: self.poster@,
            id: self.id,
            recipe_file_path: self.recipe_file_path@,
            date_created: self.date_created,
            thumbnail_path: text_of(self.thumbnail_path),
        }
    }
}

} // verus!

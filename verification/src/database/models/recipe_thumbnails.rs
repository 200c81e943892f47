use vstd::prelude::*;

verus! {

/// The thumbnail recorded for a recipe; there is at most one for each recipe.
#[derive(Debug)]
pub struct RecipeThumbnail {
    pub recipe_id: i32,
    pub thumbnail_path: Option<String>,
}

} // verus!

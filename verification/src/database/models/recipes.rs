use vstd::prelude::*;

verus! {

/// A step of a recipe as a row of its own.
#[derive(Debug)]
pub struct RecipeStep {
    pub id: i32,
    pub recipe_id: i32,
    pub description: String,
    /// The place of the step in the recipe.
    pub step_order: i32,
}

} // verus!

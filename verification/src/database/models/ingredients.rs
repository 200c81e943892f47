use vstd::prelude::*;

verus! {

/// A row of the ingredient table.
#[derive(Debug)]
pub struct Ingredient {
    pub id: i32,
    pub name: String,
    pub amount: i16,
    pub recipe_id: i32,
}

} // verus!

use recipe_backend::recipe_io::{Measurement, RecipeFileJson, RecipeMeasurements, RecipeStep};
use recipe_backend::routes::error::ValidationError;

fn step(order: u32, text: &str) -> RecipeStep {
    RecipeStep { order, step_details: text.to_string(), measurements: None }
}

fn soup(steps: Vec<RecipeStep>) -> RecipeFileJson {
    RecipeFileJson {
        title: "Soup".to_string(),
        description: "Warm soup".to_string(),
        ingredients: vec![RecipeMeasurements {
            ingredient: "Water".to_string(),
            measurement: Measurement::Litre,
            amount: 1,
        }],
        steps,
    }
}

#[test]
fn a_plain_recipe_is_valid() {
    let recipe = soup(vec![step(1, "Boil water"), step(2, "Add salt"), step(3, "Serve")]);
    assert_eq!(recipe.is_valid_recipe(), Ok(()));
    assert!(recipe.validate_title());
    assert!(recipe.validate_desc());
    assert!(recipe.steps[0].validate_step_details());
}

#[test]
fn steps_need_not_be_in_sequence() {
    let recipe = soup(vec![step(7, "Boil water"), step(2, "Add salt"), step(0, "Serve")]);
    assert_eq!(recipe.is_valid_recipe(), Ok(()));
}

#[test]
fn two_steps_of_one_order_are_a_duplicate() {
    let recipe = soup(vec![step(1, "Boil water"), step(1, "Add salt")]);
    assert_eq!(recipe.is_valid_recipe(), Err(ValidationError::DuplicateStepOrder));
}

#[test]
fn a_duplicate_far_apart_is_found() {
    let recipe = soup(vec![step(3, "a"), step(1, "b"), step(2, "c"), step(3, "d")]);
    assert_eq!(recipe.is_valid_recipe(), Err(ValidationError::DuplicateStepOrder));
}

#[test]
fn a_recipe_without_steps_is_refused() {
    assert_eq!(soup(vec![]).is_valid_recipe(), Err(ValidationError::EmptySteps));
}

#[test]
fn an_empty_title_is_refused() {
    let mut recipe = soup(vec![step(1, "Boil water")]);
    recipe.title = String::new();
    assert!(!recipe.validate_title());
    assert_eq!(recipe.is_valid_recipe(), Err(ValidationError::InvalidCharacters));
}

#[test]
fn a_description_with_a_symbol_is_refused() {
    let mut recipe = soup(vec![step(1, "Boil water")]);
    recipe.description = "Warm \u{2668} soup".to_string();
    assert!(!recipe.validate_desc());
    assert_eq!(recipe.is_valid_recipe(), Err(ValidationError::InvalidCharacters));
}

#[test]
fn a_step_with_a_symbol_is_refused() {
    let recipe = soup(vec![step(1, "Boil water"), step(2, "Add \u{1F9C2}")]);
    assert!(!recipe.steps[1].validate_step_details());
    assert_eq!(recipe.is_valid_recipe(), Err(ValidationError::InvalidCharacters));
}

#[test]
fn the_title_is_looked_at_before_the_steps() {
    let mut recipe = soup(vec![]);
    recipe.title = "\u{2603}".to_string();
    assert_eq!(recipe.is_valid_recipe(), Err(ValidationError::InvalidCharacters));
}

#[test]
fn the_earliest_faulty_step_decides() {
    let duplicate_first = soup(vec![step(1, "a"), step(1, "b"), step(2, "\u{2603}")]);
    assert_eq!(duplicate_first.is_valid_recipe(), Err(ValidationError::DuplicateStepOrder));
    let symbol_first = soup(vec![step(1, "a"), step(2, "\u{2603}"), step(1, "b")]);
    assert_eq!(symbol_first.is_valid_recipe(), Err(ValidationError::InvalidCharacters));
}

#[test]
fn within_a_step_the_text_is_looked_at_before_the_order() {
    let recipe = soup(vec![step(1, "a"), step(1, "\u{2603}")]);
    assert_eq!(recipe.is_valid_recipe(), Err(ValidationError::InvalidCharacters));
}

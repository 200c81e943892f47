pub mod ingredients;
pub mod profile_picture;
pub mod recipe;
pub mod recipe_thumbnails;
pub mod recipes;
pub mod user;
pub mod user_details;

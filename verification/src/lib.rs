pub mod auth;
pub mod charset;
pub mod database;
pub mod extractors;
pub mod helpers;
pub mod middleware;
pub mod pattern;
pub mod recipe_io;
pub mod routes;
pub mod static_files;
pub mod text;

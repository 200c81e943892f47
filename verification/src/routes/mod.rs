pub mod account;
pub mod error;
pub mod recipes;
pub mod users;

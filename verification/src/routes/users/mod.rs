pub mod helpers;
pub mod services;

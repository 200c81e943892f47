pub mod consistency;
pub mod helpers;
pub mod services;
pub mod store;

pub mod auth;
pub mod client;
pub mod endpoints;
pub mod types;

pub mod auth;
pub mod library;

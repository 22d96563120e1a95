pub mod auth;

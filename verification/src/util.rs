pub mod account;
pub mod app_state;
pub mod cookies;
pub mod database;
pub mod errors;
pub mod session;
pub mod text;
pub mod user;

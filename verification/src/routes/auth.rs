pub mod callback;
pub mod logout;
pub mod verify;

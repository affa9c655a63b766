pub mod user_structs;
pub mod auth;
pub mod main;

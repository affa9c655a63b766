pub mod main;
pub mod search;
pub mod user;

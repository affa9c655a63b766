pub mod main;
pub mod request;
pub mod search;
pub mod import;
pub mod model;
pub mod user;

pub mod anime;
pub mod reply;
pub mod user;
pub mod manga;
pub mod status;
pub mod ws;

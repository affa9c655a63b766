pub mod anime;
pub mod manga;

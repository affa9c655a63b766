pub mod anime;
pub mod jikan;
pub mod manga;
pub mod myanimelist;

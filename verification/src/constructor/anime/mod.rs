pub mod anime9;
pub mod crunchyroll;

//! The manga record of the MangaDex source.
use vstd::prelude::*;

verus! {

/// One manga with its chapters. `alt_titles` and `genres` hold each entry
/// as JSON text.
#[derive(Debug, Clone, PartialEq)]
pub struct Mangadex {
    pub id: String,
    pub title: String,
    pub alt_titles: Vec<Option<String>>,
    pub genres: Vec<Option<String>>,
    pub header_for_image: String,
    pub image: String,
    pub chapters: Vec<Chapter>,
}

#[derive(Debug, Clone, PartialEq)]
pub struct Chapter {
    pub id: String,
    pub title: String,
    pub release_date: String,
}

} // verus!

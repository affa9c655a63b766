//! The anime record of the 9anime source.
use vstd::prelude::*;

verus! {

/// One anime with its episodes. `genres` holds each entry as JSON text.
#[derive(Debug, Clone, PartialEq)]
pub struct Anime9 {
    pub id: String,
    pub title: String,
    pub url: String,
    pub release_data: String,
    pub description: String,
    pub genres: Vec<Option<String>>,
    pub sub_or_dub: String,
    pub anie9_type: String,
    pub status: String,
    pub other_name: String,
    pub total_episodes: i64,
    pub episodes: Vec<Episode>,
}

/// One episode.
#[derive(Debug, Clone, PartialEq)]
pub struct Episode {
    pub id: String,
    pub number: i64,
    pub url: String,
}

} // verus!

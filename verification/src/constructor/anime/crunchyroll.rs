//! The anime record of the Crunchyroll source.
use vstd::prelude::*;

verus! {

/// One anime with its recommendations and seasons. `gernes` holds each
/// entry as JSON text.
#[derive(Debug, Clone, PartialEq)]
pub struct Crunchyroll {
    pub id: String,
    pub title: String,
    pub is_adult: bool,
    pub image: String,
    pub cover: String,
    pub description: String,
    pub release_date: i64,
    pub gernes: Vec<Option<String>>,
    pub season: String,
    pub has_dub: bool,
    pub has_sub: bool,
    pub rating: String,
    pub rating_total: i64,
    pub recommendations: Vec<Recommendation>,
    pub episodes: Vec<Episode>,
}

#[derive(Debug, Clone, PartialEq)]
pub struct Recommendation {
    pub id: String,
    pub title: String,
    pub image: String,
    pub cover: String,
    pub description: String,
}

#[derive(Debug, Clone, PartialEq)]
pub struct Episode {
    pub season_name: Vec<SeasonName>,
}

#[derive(Debug, Clone, PartialEq)]
pub struct SeasonName {
    pub id: String,
    pub season_number: i64,
    pub episode_number: i64,
    pub title: String,
    pub image: String,
    pub description: String,
    pub release_date: String,
    pub is_hd: bool,
    pub is_adult: bool,
    pub is_dubbed: bool,
    pub is_subbed: bool,
}

} // verus!

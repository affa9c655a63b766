//! The anime record of the MyAnimeList API.
use vstd::prelude::*;

verus! {

/// One anime as MyAnimeList describes it.
///
/// `images` holds the image sets in the order in which the response's map
/// was read. `score_bits` holds the IEEE-754 bits of the score.
/// `title_synonyms`, `explicit_genres` and `demographics` hold each entry
/// as JSON text.
#[derive(Debug, Clone, PartialEq)]
pub struct Anime {
    pub mal_id: i64,
    pub url: String,
    pub images: Vec<(String, Image)>,
    pub trailer: Trailer,
    pub approved: bool,
    pub titles: Vec<Title>,
    pub title: String,
    pub title_english: String,
    pub title_japanese: String,
    pub title_synonyms: Vec<Option<String>>,
    pub data_type: String,
    pub source: String,
    pub episodes: i64,
    pub status: String,
    pub airing: bool,
    pub aired: Aired,
    pub duration: String,
    pub rating: String,
    pub score_bits: u64,
    pub scored_by: i64,
    pub rank: i64,
    pub popularity: i64,
    pub members: i64,
    pub favorites: i64,
    pub synopsis: String,
    pub background: String,
    pub season: String,
    pub year: i64,
    pub broadcast: Broadcast,
    pub producers: Vec<Genre>,
    pub licensors: Vec<Genre>,
    pub studios: Vec<Genre>,
    pub genres: Vec<Genre>,
    pub explicit_genres: Vec<Option<String>>,
    pub themes: Vec<Genre>,
    pub demographics: Vec<Option<String>>,
    pub relations: Vec<Relation>,
    pub theme: Theme,
    pub external: Vec<External>,
    pub streaming: Vec<External>,
}

#[derive(Debug, Clone, PartialEq)]
pub struct Aired {
    pub from: String,
    pub to: String,
    pub prop: Prop,
    pub string: String,
}

#[derive(Debug, Clone, PartialEq)]
pub struct Prop {
    pub from: From,
    pub to: From,
}

#[derive(Debug, Clone, PartialEq)]
pub struct From {
    pub day: i64,
    pub month: i64,
    pub year: i64,
}

#[derive(Debug, Clone, PartialEq)]
pub struct Broadcast {
    pub day: String,
    pub time: String,
    pub timezone: String,
    pub string: String,
}

#[derive(Debug, Clone, PartialEq)]
pub struct External {
    pub name: String,
    pub url: String,
}

#[derive(Debug, Clone, PartialEq)]
pub struct Genre {
    pub mal_id: i64,
    pub genre_type: Type,
    pub name: String,
    pub url: String,
}

#[derive(Debug, Clone, Copy, PartialEq, Eq, Structural)]
pub enum Type {
    Anime,
    Manga,
}

#[derive(Debug, Clone, PartialEq)]
pub struct Image {
    pub image_url: String,
    pub small_image_url: String,
    pub large_image_url: String,
}

#[derive(Debug, Clone, PartialEq)]
pub struct Relation {
    pub relation: String,
    pub entry: Vec<Genre>,
}

#[derive(Debug, Clone, PartialEq)]
pub struct Theme {
    pub openings: Vec<String>,
    pub endings: Vec<String>,
}

#[derive(Debug, Clone, PartialEq)]
pub struct Title {
    pub title_type: String,
    pub title: String,
}

#[derive(Debug, Clone, PartialEq)]
pub struct Trailer {
    pub youtube_id: String,
    pub url: String,
    pub embed_url: String,
    pub images: Images,
}

#[derive(Debug, Clone, PartialEq)]
pub struct Images {
    pub image_url: String,
    pub small_image_url: String,
    pub medium_image_url: String,
    pub large_image_url: String,
    pub maximum_image_url: String,
}

} // verus!

//! The manga record of the MyAnimeList API.
use vstd::prelude::*;

verus! {

/// One manga as MyAnimeList describes it. `images` holds the image sets in
/// the order in which the response's map was read; `score_bits` holds the
/// IEEE-754 bits of the score; `title_synonyms`, `explicit_genres` and
/// `demographics` hold each entry as JSON text.
#[derive(Debug, Clone, PartialEq)]
pub struct Manga {
    pub mal_id: i64,
    pub url: String,
    pub images: Vec<(String, Images)>,
    pub approved: bool,
    pub titles: Vec<Titles>,
    pub title: String,
    pub title_english: String,
    pub title_japanese: String,
    pub title_synonyms: Vec<Option<String>>,
    pub data_type: String,
    pub chapters: i64,
    pub volumes: i64,
    pub status: String,
    pub publishing: bool,
    pub published: Published,
    pub score_bits: u64,
    pub scored: i64,
    pub scored_by: i64,
    pub rank: i64,
    pub popularity: i64,
    pub members: i64,
    pub favorites: i64,
    pub synopsis: String,
    pub background: String,
    pub authors: Vec<Author>,
    pub serializations: Vec<Genre>,
    pub genres: Vec<Genre>,
    pub explicit_genres: Vec<Option<String>>,
    pub themes: Theme,
    pub demographics: Vec<Option<String>>,
    pub relations: Vec<Relation>,
    pub external: Vec<External>,
}

#[derive(Debug, Clone, PartialEq)]
pub struct Images {
    pub image_url: String,
    pub small_image_url: String,
    pub large_image_url: String,
}

#[derive(Debug, Clone, PartialEq)]
pub struct Titles {
    pub titles_type: String,
    pub title: String,
}

#[derive(Debug, Clone, Copy, PartialEq, Eq, Structural)]
pub enum Type {
    Anime,
    Manga,
}

#[derive(Debug, Clone, PartialEq)]
pub struct Published {
    pub from: String,
    pub to: String,
    pub prop: Prop,
    pub string: String,
}

#[derive(Debug, Clone, PartialEq)]
pub struct Prop {
    pub from: From,
    pub to: From,
}

#[derive(Debug, Clone, PartialEq)]
pub struct From {
    pub day: i64,
    pub month: i64,
    pub year: i64,
}

#[derive(Debug, Clone, PartialEq)]
pub struct Author {
    pub mal_id: i64,
    pub data_type: Type,
    pub name: String,
    pub url: String,
}

#[derive(Debug, Clone, PartialEq)]
pub struct Genre {
    pub mal_id: i64,
    pub data_type: Type,
    pub name: String,
    pub url: String,
}

#[derive(Debug, Clone, PartialEq)]
pub struct Relation {
    pub relation: String,
    pub entry: Vec<Genre>,
}

#[derive(Debug, Clone, PartialEq)]
pub struct Theme {
    pub openings: Vec<String>,
    pub endings: Vec<String>,
}

#[derive(Debug, Clone, PartialEq)]
pub struct External {
    pub name: String,
    pub url: String,
}

} // verus!

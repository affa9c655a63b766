//! The records of the Jikan manga API (`/v4/manga` and `/v4/manga/{id}/full`).
use vstd::prelude::*;

verus! {

/// One manga with its relations and links (`/v4/manga/{id}/full`).
#[derive(Debug, Clone, PartialEq)]
pub struct Full {
    pub base: Data,
    pub relations: Vec<Relation>,
    pub external: Vec<External>,
}

/// One page of search results (`/v4/manga?q=..`).
#[derive(Debug, Clone, PartialEq)]
pub struct Search {
    pub pagination: Pagination,
    pub data: Vec<Data>,
}

/// One manga as the API describes it. `images` holds the image sets in the
/// order in which the response's map was read; `score_bits` and
/// `scored_bits` hold IEEE-754 bits; `title_synonyms` and
/// `explicit_genres` hold each entry as JSON text.
#[derive(Debug, Clone, PartialEq)]
pub struct Data {
    pub mal_id: i64,
    pub url: String,
    pub images: Vec<(String, Image)>,
    pub approved: bool,
    pub titles: Vec<Title>,
    pub title: String,
    pub title_english: String,
    pub title_japanese: String,
    pub title_synonyms: Vec<Option<String>>,
    pub data_type: DataType,
    pub chapters: Option<i64>,
    pub volumes: Option<i64>,
    pub status: Status,
    pub publishing: bool,
    pub published: Published,
    pub score_bits: u64,
    pub scored_bits: u64,
    pub scored_by: i64,
    pub rank: i64,
    pub popularity: i64,
    pub members: i64,
    pub favorites: i64,
    pub synopsis: String,
    pub background: String,
    pub authors: Vec<Genre>,
    pub serializations: Vec<Genre>,
    pub genres: Vec<Genre>,
    pub explicit_genres: Vec<Option<String>>,
    pub themes: Vec<Genre>,
    pub demographics: Vec<Genre>,
}

#[derive(Debug, Clone, PartialEq)]
pub struct Genre {
    pub mal_id: i64,
    pub genre_type: DataType,
    pub name: String,
    pub url: String,
}

#[derive(Debug, Clone, Copy, PartialEq, Eq, Structural)]
pub enum DataType {
    Anime,
    Manga,
    People,
}

#[derive(Debug, Clone, PartialEq)]
pub struct Image {
    pub image_url: String,
    pub small_image_url: String,
    pub large_image_url: String,
}

#[derive(Debug, Clone, PartialEq)]
pub struct Published {
    pub from: String,
    pub to: Option<String>,
    pub prop: Prop,
    pub string: String,
}

#[derive(Debug, Clone, PartialEq)]
pub struct Prop {
    pub from: From,
    pub to: From,
}

#[derive(Debug, Clone, PartialEq)]
pub struct From {
    pub day: Option<i64>,
    pub month: Option<i64>,
    pub year: Option<i64>,
}

#[derive(Debug, Clone, Copy, PartialEq, Eq, Structural)]
pub enum Status {
    Finished,
    OnHiatus,
    Publishing,
}

#[derive(Debug, Clone, PartialEq)]
pub struct Title {
    pub title_type: TitleType,
    pub title: String,
}

#[derive(Debug, Clone, Copy, PartialEq, Eq, Structural)]
pub enum TitleType {
    Default,
    English,
    French,
    German,
    Japanese,
    Spanish,
    Synonym,
}

#[derive(Debug, Clone, PartialEq)]
pub struct External {
    pub name: String,
    pub url: String,
}

#[derive(Debug, Clone, PartialEq)]
pub struct Relation {
    pub relation: String,
    pub entry: Vec<Genre>,
}

#[derive(Debug, Clone, PartialEq)]
pub struct Pagination {
    pub last_visible_page: i64,
    pub has_next_page: bool,
    pub current_page: i64,
    pub items: Items,
}

#[derive(Debug, Clone, PartialEq)]
pub struct Items {
    pub count: i64,
    pub total: i64,
    pub per_page: i64,
}

} // verus!

//! The records of the Jikan anime API (`/v4/anime` and `/v4/anime/{id}/full`).
use vstd::prelude::*;

verus! {

/// One anime with its relations, themes and links (`/v4/anime/{id}/full`).
#[derive(Debug, Clone, PartialEq)]
pub struct Full {
    pub base: Data,
    pub relations: Vec<Relation>,
    pub theme: Theme,
    pub external: Vec<External>,
    pub streaming: Vec<External>,
}

/// One page of search results (`/v4/anime?q=..`).
#[derive(Debug, Clone, PartialEq)]
pub struct Search {
    pub pagination: Pagination,
    pub data: Vec<Data>,
}

/// One anime as the API describes it.
///
/// `images` holds the image sets in the order in which the response's
/// map was read. `score_bits` holds the IEEE-754 bits of the score.
/// `title_synonyms`, `explicit_genres` and `demographics` hold each
/// entry as JSON text.
#[derive(Debug, Clone, PartialEq)]
pub struct Data {
    pub mal_id: i64,
    pub url: String,
    pub images: Vec<(String, Image)>,
    pub trailer: Trailer,
    pub approved: bool,
    pub titles: Vec<Title>,
    pub title: Option<String>,
    pub title_english: Option<String>,
    pub title_japanese: Option<String>,
    pub title_synonyms: Vec<Option<String>>,
    pub data_type: DataType,
    pub source: Source,
    pub episodes: Option<i64>,
    pub status: Status,
    pub airing: bool,
    pub aired: Aired,
    pub duration: String,
    pub rating: Rating,
    pub score_bits: Option<u64>,
    pub scored_by: i64,
    pub rank: Option<i64>,
    pub popularity: i64,
    pub members: i64,
    pub favorites: i64,
    pub synopsis: Option<String>,
    pub background: Option<String>,
    pub season: Option<String>,
    pub year: Option<i64>,
    pub broadcast: Broadcast,
    pub producers: Vec<Genre>,
    pub licensors: Vec<Genre>,
    pub studios: Vec<Genre>,
    pub genres: Vec<Genre>,
    pub explicit_genres: Vec<Option<String>>,
    pub themes: Vec<Genre>,
    pub demographics: Vec<Option<String>>,
}

#[derive(Debug, Clone, PartialEq)]
pub struct Aired {
    pub from: String,
    pub to: Option<String>,
    pub prop: Prop,
    pub string: String,
}

#[derive(Debug, Clone, PartialEq)]
pub struct Prop {
    pub from: From,
    pub to: From,
}

#[derive(Debug, Clone, PartialEq)]
pub struct From {
    pub day: Option<i64>,
    pub month: Option<i64>,
    pub year: Option<i64>,
}

#[derive(Debug, Clone, PartialEq)]
pub struct Broadcast {
    pub day: Option<String>,
    pub time: Option<String>,
    pub timezone: Option<String>,
    pub string: Option<String>,
}

/// The kind of an anime.
#[derive(Debug, Clone, Copy, PartialEq, Eq, Structural)]
pub enum DataType {
    Ona,
    Ova,
    Special,
    Tv,
    Movie,
}

#[derive(Debug, Clone, PartialEq)]
pub struct Genre {
    pub mal_id: i64,
    pub genre_type: GenreType,
    pub name: String,
    pub url: String,
}

#[derive(Debug, Clone, Copy, PartialEq, Eq, Structural)]
pub enum GenreType {
    Anime,
    Manga,
}

#[derive(Debug, Clone, PartialEq)]
pub struct Image {
    pub image_url: String,
    pub small_image_url: String,
    pub large_image_url: String,
}

#[derive(Debug, Clone, Copy, PartialEq, Eq, Structural)]
pub enum Rating {
    Pg13Teens13OrOlder,
    PgChildren,
    R17ViolenceProfanity,
    RMildNudity,
    RxHentai,
}

/// What an anime was adapted from.
#[derive(Debug, Clone, Copy, PartialEq, Eq, Structural)]
pub enum Source {
    LightNovel,
    Manga,
    Original,
    VisualNovel,
}

/// Where an anime stands in its airing.
#[derive(Debug, Clone, Copy, PartialEq, Eq, Structural)]
pub enum Status {
    CurrentlyAiring,
    FinishedAiring,
    NotYetAired,
    Cancelled,
    Hiatus,
    TBA,
}

#[derive(Debug, Clone, PartialEq)]
pub struct Title {
    pub title_type: TitleType,
    pub title: String,
}

#[derive(Debug, Clone, Copy, PartialEq, Eq, Structural)]
pub enum TitleType {
    Default,
    English,
    French,
    German,
    Japanese,
    Spanish,
    Synonym,
}

#[derive(Debug, Clone, PartialEq)]
pub struct Trailer {
    pub youtube_id: Option<String>,
    pub url: Option<String>,
    pub embed_url: Option<String>,
    pub images: Images,
}

#[derive(Debug, Clone, PartialEq)]
pub struct Images {
    pub image_url: Option<String>,
    pub small_image_url: Option<String>,
    pub medium_image_url: Option<String>,
    pub large_image_url: Option<String>,
    pub maximum_image_url: Option<String>,
}

#[derive(Debug, Clone, PartialEq)]
pub struct External {
    pub name: String,
    pub puburl: String,
}

#[derive(Debug, Clone, PartialEq)]
pub struct Relation {
    pub relation: String,
    pub pubentry: Vec<Genre>,
}

#[derive(Debug, Clone, PartialEq)]
pub struct Theme {
    pub openings: Vec<String>,
    pub pubendings: Vec<String>,
}

#[derive(Debug, Clone, PartialEq)]
pub struct Pagination {
    pub last_visible_page: i64,
    pub has_next_page: bool,
    pub current_page: i64,
    pub items: Items,
}

#[derive(Debug, Clone, PartialEq)]
pub struct Items {
    pub count: i64,
    pub total: i64,
    pub per_page: i64,
}

} // verus!

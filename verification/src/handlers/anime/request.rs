//! Searching anime at Jikan: the request's URL, and how Jikan's search
//! results become this service's anime records.
use vstd::prelude::*;

use crate::constructor::jikan::anime::{Data, DataType, Genre, Image, Search, Source, Status};
use crate::handlers::anime::main::{Anime, AnimeNames};
use crate::text::{concat, owned};

verus! {

/// The address of Jikan's anime search.
pub open spec fn jikan_search_prefix() -> Seq<char> {
    "https://api.jikan.moe/v4/anime?q="@
}

/// The URL of Jikan's anime search for the text `req`, which is put into
/// the query as it is.
pub fn jikan_search_url(req: &str) -> (r: String)
    ensures
        r@ == jikan_search_prefix() + req@,
{
    concat("https://api.jikan.moe/v4/anime?q=", req)
}

/// How an airing status is written in this service's records.
pub open spec fn status_label(s: Status) -> Seq<char> {
    match s {
        Status::FinishedAiring => "Finished Airing"@,
        Status::CurrentlyAiring => "Currently Airing"@,
        Status::NotYetAired => "Not Yet Aired"@,
        Status::Cancelled => "Cancelled"@,
        Status::Hiatus => "Hiatus"@,
        Status::TBA => "TBA"@,
    }
}

/// The name of an anime's kind, as its debug form writes it.
pub open spec fn data_type_label(t: DataType) -> Seq<char> {
    match t {
        DataType::Ona => "Ona"@,
        DataType::Ova => "Ova"@,
        DataType::Special => "Special"@,
        DataType::Tv => "Tv"@,
        DataType::Movie => "Movie"@,
    }
}

/// The name of an anime's source, as its debug form writes it.
pub open spec fn source_label(s: Source) -> Seq<char> {
    match s {
        Source::LightNovel => "LightNovel"@,
        Source::Manga => "Manga"@,
        Source::Original => "Original"@,
        Source::VisualNovel => "VisualNovel"@,
    }
}

/// The text of an optional string, the empty text when there is none.
pub open spec fn text_or_empty(o: Option<String>) -> Seq<char> {
    match o {
        Some(t) => t@,
        None => Seq::empty(),
    }
}

/// The texts of a list of strings.
pub open spec fn texts(v: Seq<String>) -> Seq<Seq<char>> {
    v.map_values(|s: String| s@)
}

/// The names of a list of genres.
pub open spec fn genre_names(v: Seq<Genre>) -> Seq<Seq<char>> {
    v.map_values(|g: Genre| g.name@)
}

/// The main image URL of each image set, in order.
pub open spec fn image_urls_of(v: Seq<(String, Image)>) -> Seq<Seq<char>> {
    v.map_values(|e: (String, Image)| e.1.image_url@)
}

/// `a` is the record that a Jikan search result `d` becomes: its title
/// and its English and Japanese titles (empty where missing), season 0,
/// its episode count and score (0 where missing), its status as a label,
/// its kind and its source by name, the names of its genres and of its
/// themes, its trailer URL if any, its page URL, no video URL, and the
/// main URL of each of its image sets.
pub open spec fn converted(d: Data, a: Anime) -> bool {
    &&& a.names.original@ == text_or_empty(d.title)
    &&& a.names.en matches Some(en) && en@ == text_or_empty(d.title_english)
    &&& a.names.jp matches Some(jp) && jp@ == text_or_empty(d.title_japanese)
    &&& a.season == 0
    &&& a.episodes == (match d.episodes {
        Some(e) => e,
        None => 0,
    })
    &&& a.score_bits == (match d.score_bits {
        Some(b) => b,
        None => 0,
    })
    &&& a.status@ == status_label(d.status)
    &&& texts(a.types@) == seq![data_type_label(d.data_type)]
    &&& texts(a.platforms@) == seq![source_label(d.source)]
    &&& texts(a.genres@) == genre_names(d.genres@)
    &&& texts(a.tags@) == genre_names(d.themes@)
    &&& texts(a.trailer_urls@) == (match d.trailer.url {
        Some(u) => seq![u@],
        None => Seq::<Seq<char>>::empty(),
    })
    &&& texts(a.info_urls@) == seq![d.url@]
    &&& a.video_urls@.len() == 0
    &&& texts(a.image_urls@) == image_urls_of(d.images@)
}

fn status_text(s: Status) -> (r: String)
    ensures
        r@ == status_label(s),
{
    match s {
        Status::FinishedAiring => owned("Finished Airing"),
        Status::CurrentlyAiring => owned("Currently Airing"),
        Status::NotYetAired => owned("Not Yet Aired"),
        Status::Cancelled => owned("Cancelled"),
        Status::Hiatus => owned("Hiatus"),
        Status::TBA => owned("TBA"),
    }
}

fn data_type_text(t: DataType) -> (r: String)
    ensures
        r@ == data_type_label(t),
{
    match t {
        DataType::Ona => owned("Ona"),
        DataType::Ova => owned("Ova"),
        DataType::Special => owned("Special"),
        DataType::Tv => owned("Tv"),
        DataType::Movie => owned("Movie"),
    }
}

fn source_text(s: Source) -> (r: String)
    ensures
        r@ == source_label(s),
{
    match s {
        Source::LightNovel => owned("LightNovel"),
        Source::Manga => owned("Manga"),
        Source::Original => owned("Original"),
        Source::VisualNovel => owned("VisualNovel"),
    }
}

fn text_or_default(o: &Option<String>) -> (r: String)
    ensures
        r@ == text_or_empty(*o),
{
    match o {
        Some(t) => owned(t.as_str()),
        None => String::new(),
    }
}

fn names_of(genres: &Vec<Genre>) -> (r: Vec<String>)
    ensures
        texts(r@) == genre_names(genres@),
{
    let mut r: Vec<String> = Vec::new();
    let mut i: usize = 0;
    while i < genres.len()
        invariant
            i <= genres.len(),
            texts(r@) == genre_names(genres@.take(i as int)),
        decreases genres.len() - i,
    {
        let ghost before = r@;
        let name = owned(genres[i].name.as_str());
        r.push(name);
        assert(genres@.take(i + 1) == genres@.take(i as int).push(genres@[i as int]));
        assert(texts(r@) =~= texts(before).push(genres@[i as int].name@));
        assert(genre_names(genres@.take(i + 1)) =~= genre_names(genres@.take(i as int)).push(
            genres@[i as int].name@,
        ));
        i += 1;
    }
    assert(genres@.take(genres.len() as int) == genres@);
    r
}

fn main_image_urls(images: &Vec<(String, Image)>) -> (r: Vec<String>)
    ensures
        texts(r@) == image_urls_of(images@),
{
    let mut r: Vec<String> = Vec::new();
    let mut i: usize = 0;
    while i < images.len()
        invariant
            i <= images.len(),
            texts(r@) == image_urls_of(images@.take(i as int)),
        decreases images.len() - i,
    {
        let ghost before = r@;
        let url = owned(images[i].1.image_url.as_str());
        r.push(url);
        assert(images@.take(i + 1) == images@.take(i as int).push(images@[i as int]));
        assert(texts(r@) =~= texts(before).push(images@[i as int].1.image_url@));
        assert(image_urls_of(images@.take(i + 1)) =~= image_urls_of(images@.take(i as int)).push(
            images@[i as int].1.image_url@,
        ));
        i += 1;
    }
    assert(images@.take(images.len() as int) == images@);
    r
}

/// The record that one Jikan search result becomes.
pub fn convert_data_to_anime(data: &Data) -> (r: Anime)
    ensures
        converted(*data, r),
{
    let names = AnimeNames {
        original: text_or_default(&data.title),
        en: Some(text_or_default(&data.title_english)),
        jp: Some(text_or_default(&data.title_japanese)),
    };
    let mut types: Vec<String> = Vec::new();
    types.push(data_type_text(data.data_type));
    let mut platforms: Vec<String> = Vec::new();
    platforms.push(source_text(data.source));
    let mut trailer_urls: Vec<String> = Vec::new();
    match &data.trailer.url {
        Some(u) => trailer_urls.push(owned(u.as_str())),
        None => {},
    }
    let mut info_urls: Vec<String> = Vec::new();
    info_urls.push(owned(data.url.as_str()));
    let episodes: i64 = match data.episodes {
        Some(e) => e,
        None => 0,
    };
    let score_bits: u64 = match data.score_bits {
        Some(b) => b,
        None => 0,
    };
    let r = Anime {
        names,
        season: 0,
        episodes,
        score_bits,
        status: status_text(data.status),
        types,
        platforms,
        genres: names_of(&data.genres),
        tags: names_of(&data.themes),
        trailer_urls,
        info_urls,
        video_urls: Vec::new(),
        image_urls: main_image_urls(&data.images),
    };
    assert(texts(r.types@) =~= seq![data_type_label(data.data_type)]);
    assert(texts(r.platforms@) =~= seq![source_label(data.source)]);
    assert(texts(r.info_urls@) =~= seq![data.url@]);
    assert(texts(r.trailer_urls@) =~= (match data.trailer.url {
        Some(u) => seq![u@],
        None => Seq::<Seq<char>>::empty(),
    }));
    r
}

/// The records that Jikan's search results become, one for each result,
/// in the same order.
pub fn convert_search_to_anime(search: &Search) -> (r: Vec<Anime>)
    ensures
        r.len() == search.data.len(),
        forall|i: int| 0 <= i < r.len() ==> converted(#[trigger] search.data[i], r[i]),
{
    let mut r: Vec<Anime> = Vec::new();
    let mut i: usize = 0;
    while i < search.data.len()
        invariant
            i <= search.data.len(),
            r.len() == i,
            forall|j: int| 0 <= j < i ==> converted(#[trigger] search.data[j], r[j]),
        decreases search.data.len() - i,
    {
        r.push(convert_data_to_anime(&search.data[i]));
        i += 1;
    }
    r
}

} // verus!

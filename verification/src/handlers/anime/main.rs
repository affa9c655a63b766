//! The anime record and the decisions of the `/anime` handlers.
use vstd::prelude::*;

use crate::handlers::reply::{
    bad_request, cached_lookup_answer, cached_update_answer, creation_reply, deletion_reply, Answer,
    Reply, Status,
};
use crate::middleware::caching::{CacheAction, Caching};
use crate::text::owned;

verus! {

/// The names of an anime.
#[derive(Debug, PartialEq, Eq)]
pub struct AnimeNames {
    pub original: String,
    pub en: Option<String>,
    pub jp: Option<String>,
}

impl Clone for AnimeNames {
    fn clone(&self) -> (r: Self)
        ensures
            r == *self,
    {
        AnimeNames { original: self.original.clone(), en: self.en.clone(), jp: self.jp.clone() }
    }
}

/// An anime as this service stores it. `score_bits` holds the IEEE-754
/// bits of the score.
#[derive(Debug, PartialEq, Eq)]
pub struct Anime {
    pub names: AnimeNames,
    pub season: i64,
    pub episodes: i64,
    pub score_bits: u64,
    pub status: String,
    pub types: Vec<String>,
    pub platforms: Vec<String>,
    pub genres: Vec<String>,
    pub tags: Vec<String>,
    pub trailer_urls: Vec<String>,
    pub info_urls: Vec<String>,
    pub video_urls: Vec<String>,
    pub image_urls: Vec<String>,
}

/// The value of an anime, with its lists as sequences.
pub ghost struct AnimeView {
    pub names: AnimeNames,
    pub season: i64,
    pub episodes: i64,
    pub score_bits: u64,
    pub status: String,
    pub types: Seq<String>,
    pub platforms: Seq<String>,
    pub genres: Seq<String>,
    pub tags: Seq<String>,
    pub trailer_urls: Seq<String>,
    pub info_urls: Seq<String>,
    pub video_urls: Seq<String>,
    pub image_urls: Seq<String>,
}

impl View for Anime {
    type V = AnimeView;

    open spec fn view(&self) -> AnimeView {
        AnimeView {
            names: self.names,
            season: self.season,
            episodes: self.episodes,
            score_bits: self.score_bits,
            status: self.status,
            types: self.types@,
            platforms: self.platforms@,
            genres: self.genres@,
            tags: self.tags@,
            trailer_urls: self.trailer_urls@,
            info_urls: self.info_urls@,
            video_urls: self.video_urls@,
            image_urls: self.image_urls@,
        }
    }
}

/// A copy of a list of strings.
pub(crate) fn copy_strings(v: &Vec<String>) -> (r: Vec<String>)
    ensures
        r@ == v@,
{
    let r = v.clone();
    assert(r@ =~= v@);
    r
}

impl Clone for Anime {
    fn clone(&self) -> (r: Self)
        ensures
            r@ == self@,
    {
        Anime {
            names: self.names.clone(),
            season: self.season,
            episodes: self.episodes,
            score_bits: self.score_bits,
            status: self.status.clone(),
            types: copy_strings(&self.types),
            platforms: copy_strings(&self.platforms),
            genres: copy_strings(&self.genres),
            tags: copy_strings(&self.tags),
            trailer_urls: copy_strings(&self.trailer_urls),
            info_urls: copy_strings(&self.info_urls),
            video_urls: copy_strings(&self.video_urls),
            image_urls: copy_strings(&self.image_urls),
        }
    }
}

/// Access to the anime that a value carries.
pub trait AnimeField {
    fn base(&self) -> Anime;
}

impl AnimeField for Anime {
    /// The anime itself.
    fn base(&self) -> (r: Anime)
        ensures
            r@ == self@,
    {
        self.clone()
    }
}

/// The record id that a request named, or the answer to a request that
/// named none: `BadRequest` with "Bad Request".
pub fn require_id(id: Option<String>) -> (r: Result<String, Reply>)
    ensures
        match id {
            Some(i) => r matches Ok(x) && x@ == i@,
            None => r matches Err(rep) && rep.status == Status::BadRequest && rep.body@
                == "Bad Request"@ && rep.header is None,
        },
{
    match id {
        Some(i) => Ok(i),
        None => Err(bad_request()),
    }
}

/// What the `GET /anime` handler does next, once it has looked in the cache.
pub enum AnimeGetStep {
    /// Answer with the cached text.
    ServeCached(String),
    /// Read the anime with this id.
    SelectOne(String),
    /// Read all anime.
    SelectAll,
}

/// The next step of `GET /anime`: serve a cached answer if there is one;
/// otherwise read the requested anime, or all of them when no id was given.
pub fn anime_get_step(cached: Option<String>, id: Option<String>) -> (r: AnimeGetStep)
    ensures
        match cached {
            Some(data) => r matches AnimeGetStep::ServeCached(d) && d@ == data@,
            None => match id {
                Some(i) => r matches AnimeGetStep::SelectOne(x) && x@ == i@,
                None => r is SelectAll,
            },
        },
{
    match cached {
        Some(data) => AnimeGetStep::ServeCached(data),
        None => match id {
            Some(i) => AnimeGetStep::SelectOne(i),
            None => AnimeGetStep::SelectAll,
        },
    }
}

/// `GET /anime?id=..` after the read: the anime's JSON, which is then
/// cached under the request's URI, or "No data Found".
pub fn anime_get_one_answer(uri: String, record: Option<String>) -> (r: Answer)
    ensures
        match record {
            Some(json) => {
                &&& r.reply.status == Status::Success
                &&& r.reply.body@ == json@
                &&& r.cache matches CacheAction::Store { key, value } && key@ == uri@ && value@
                    == json@
            },
            None => {
                &&& r.reply.status == Status::NotFound
                &&& r.reply.body@ == "No data Found"@
                &&& r.cache is Keep
            },
        },
        r.reply.header is None,
{
    cached_lookup_answer(uri, record, "No data Found")
}

/// `GET /anime` without an id, after reading every anime as one JSON
/// array: the array, cached under the request's URI, unless it is empty
/// (`[]`), which is answered with `NotFound` and not cached.
pub fn anime_get_all_answer(uri: String, json: String) -> (r: Answer)
    ensures
        r.reply.body@ == json@,
        r.reply.header is None,
        json@ != "[]"@ ==> r.reply.status == Status::Success && (r.cache matches CacheAction::Store {
            key,
            value,
        } && key@ == uri@ && value@ == json@),
        json@ == "[]"@ ==> r.reply.status == Status::NotFound && r.cache is Keep,
{
    if crate::text::same_text(json.as_str(), "[]") {
        Answer { reply: Reply { status: Status::NotFound, body: json, header: None }, cache: CacheAction::Keep }
    } else {
        let value = owned(json.as_str());
        Answer {
            reply: Reply { status: Status::Success, body: json, header: None },
            cache: CacheAction::Store { key: Caching::new(uri).get_key(), value },
        }
    }
}

/// `POST /anime` after the insert: the created record's JSON, or
/// "No Data found". When a record was created, the cached list under
/// `/anime` is dropped.
pub fn anime_post_answer(records: Vec<String>) -> (r: Answer)
    ensures
        r.reply.header is None,
        r.reply.status == (if records.len() > 0 {
            Status::Created
        } else {
            Status::NotAcceptable
        }),
        records.len() == 1 ==> r.reply.body@ == records[0]@,
        records.len() != 1 ==> r.reply.body@ == "No Data found"@,
        records.len() > 0 ==> (r.cache matches CacheAction::Delete { key } && key@ == "/anime"@),
        records.len() == 0 ==> r.cache is Keep,
{
    let created = records.len() > 0;
    let reply = creation_reply(records, "No Data found");
    let cache = if created {
        CacheAction::Delete { key: Caching::new(owned("/anime")).get_key() }
    } else {
        CacheAction::Keep
    };
    Answer { reply, cache }
}

/// `PATCH /anime?id=..` after the update: `Created` with the updated
/// record's JSON, or `NotFound` with "No Data found". Either text is then
/// stored in the cache under the request's URI.
pub fn anime_patch_answer(uri: String, record: Option<String>) -> (r: Answer)
    ensures
        r.reply.header is None,
        match record {
            Some(json) => r.reply.status == Status::Created && r.reply.body@ == json@,
            None => r.reply.status == Status::NotFound && r.reply.body@ == "No Data found"@,
        },
        r.cache matches CacheAction::Store { key, value } && key@ == uri@ && value@
            == r.reply.body@,
{
    cached_update_answer(uri, record, "No Data found")
}

/// `DELETE /anime?id=..` once the store has answered: "Data Deleted" when
/// the store accepted the deletion, which also drops the cache entry under
/// the request's URI; "No Data Found" when it failed.
pub fn anime_delete_answer(uri: String, accepted: bool) -> (r: Answer)
    ensures
        r.reply.header is None,
        accepted ==> r.reply.status == Status::Success && r.reply.body@ == "Data Deleted"@
            && (r.cache matches CacheAction::Delete { key } && key@ == uri@),
        !accepted ==> r.reply.status == Status::NotFound && r.reply.body@ == "No Data Found"@
            && r.cache is Keep,
{
    let cache = if accepted {
        CacheAction::Delete { key: Caching::new(uri).get_key() }
    } else {
        CacheAction::Keep
    };
    Answer { reply: deletion_reply(accepted), cache }
}

} // verus!

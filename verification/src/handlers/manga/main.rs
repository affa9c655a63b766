//! The manga record and the decisions of the `/manga` handlers.
use vstd::prelude::*;

use crate::handlers::anime::main::copy_strings;
use crate::handlers::manga::search::MangaSearch;
use crate::handlers::reply::{
    cached_lookup_answer, cached_update_answer, creation_reply, deletion_reply, Answer, Reply,
    Status,
};
use crate::records::RecordId;
use crate::text::owned;
use crate::middleware::caching::{CacheAction, Caching};

verus! {

/// The names of a manga.
#[derive(Debug, PartialEq, Eq)]
pub struct MangaNames {
    pub original: String,
    pub en: String,
    pub jp: String,
}

impl Clone for MangaNames {
    fn clone(&self) -> (r: Self)
        ensures
            r == *self,
    {
        MangaNames { original: self.original.clone(), en: self.en.clone(), jp: self.jp.clone() }
    }
}

/// A manga as this service stores it.
#[derive(Debug, PartialEq, Eq)]
pub struct Manga {
    pub names: MangaSearch,
    pub chapters: u16,
    pub volumes: u16,
    pub score: u8,
    pub status: String,
    pub types: Vec<String>,
    pub platforms: Vec<String>,
    pub genres: Vec<String>,
    pub tags: Vec<String>,
    pub info_urls: Vec<String>,
    pub read_urls: Vec<String>,
    pub image_urls: Vec<String>,
}

/// The value of a manga, with its lists as sequences.
pub ghost struct MangaView {
    pub names: MangaSearch,
    pub chapters: u16,
    pub volumes: u16,
    pub score: u8,
    pub status: String,
    pub types: Seq<String>,
    pub platforms: Seq<String>,
    pub genres: Seq<String>,
    pub tags: Seq<String>,
    pub info_urls: Seq<String>,
    pub read_urls: Seq<String>,
    pub image_urls: Seq<String>,
}

impl View for Manga {
    type V = MangaView;

    open spec fn view(&self) -> MangaView {
        MangaView {
            names: self.names,
            chapters: self.chapters,
            volumes: self.volumes,
            score: self.score,
            status: self.status,
            types: self.types@,
            platforms: self.platforms@,
            genres: self.genres@,
            tags: self.tags@,
            info_urls: self.info_urls@,
            read_urls: self.read_urls@,
            image_urls: self.image_urls@,
        }
    }
}

impl Clone for Manga {
    fn clone(&self) -> (r: Self)
        ensures
            r@ == self@,
    {
        Manga {
            names: self.names.clone(),
            chapters: self.chapters,
            volumes: self.volumes,
            score: self.score,
            status: self.status.clone(),
            types: copy_strings(&self.types),
            platforms: copy_strings(&self.platforms),
            genres: copy_strings(&self.genres),
            tags: copy_strings(&self.tags),
            info_urls: copy_strings(&self.info_urls),
            read_urls: copy_strings(&self.read_urls),
            image_urls: copy_strings(&self.image_urls),
        }
    }
}

/// Access to the manga that a value carries.
pub trait MangaField {
    fn base(&self) -> Manga;
}

impl MangaField for Manga {
    /// The manga itself.
    fn base(&self) -> (r: Manga)
        ensures
            r@ == self@,
    {
        self.clone()
    }
}

/// `GET /manga?id=..` on a cache miss, after the read: the manga's JSON,
/// which is then cached under the request's URI, or "No Data Found".
pub fn manga_get_answer(uri: String, record: Option<String>) -> (r: Answer)
    ensures
        r.reply.header is None,
        match record {
            Some(json) => {
                &&& r.reply.status == Status::Success
                &&& r.reply.body@ == json@
                &&& r.cache matches CacheAction::Store { key, value } && key@ == uri@ && value@
                    == json@
            },
            None => {
                &&& r.reply.status == Status::NotFound
                &&& r.reply.body@ == "No Data Found"@
                &&& r.cache is Keep
            },
        },
{
    cached_lookup_answer(uri, record, "No Data Found")
}

/// What `GET /manga` does once it has looked in the cache.
pub enum MangaGetStep {
    /// Answer with the cached text.
    ServeCached(String),
    /// Read the manga.
    Select,
}

/// The next step of `GET /manga`: serve a cached answer if there is one,
/// otherwise read the manga.
pub fn manga_get_step(cached: Option<String>) -> (r: MangaGetStep)
    ensures
        match cached {
            Some(data) => r matches MangaGetStep::ServeCached(d) && d@ == data@,
            None => r is Select,
        },
{
    match cached {
        Some(data) => MangaGetStep::ServeCached(data),
        None => MangaGetStep::Select,
    }
}

/// A stored manga as a handler reads it back: its JSON, its key and its
/// names.
pub struct StoredManga {
    pub json: String,
    pub id: RecordId,
    pub names: MangaNames,
}

/// A document of the manga search index: the record's key and the manga's
/// names.
#[derive(Debug, PartialEq, Eq)]
pub struct IndexEntry {
    pub db_id: String,
    pub original: String,
    pub en: String,
    pub jp: String,
}

/// What a handler does to the manga search index.
pub enum IndexAction {
    /// Leave the index as it is.
    Keep,
    /// Add the document to the index.
    Add(IndexEntry),
}

/// An answer together with what it does to the cache and to the manga
/// search index.
pub struct MangaAnswer {
    pub reply: Reply,
    pub cache: CacheAction,
    pub index: IndexAction,
}

/// The index document of a stored manga: its key and its names.
pub open spec fn indexes(e: IndexEntry, m: StoredManga) -> bool {
    &&& e.db_id@ == m.id.id@
    &&& e.original@ == m.names.original@
    &&& e.en@ == m.names.en@
    &&& e.jp@ == m.names.jp@
}

fn index_entry(m: &StoredManga) -> (r: IndexEntry)
    ensures
        indexes(r, *m),
{
    IndexEntry {
        db_id: owned(m.id.id.as_str()),
        original: owned(m.names.original.as_str()),
        en: owned(m.names.en.as_str()),
        jp: owned(m.names.jp.as_str()),
    }
}

/// The key that a new index document gets: the number of documents the
/// index holds plus `increase`, or 0 when the index could not tell.
pub fn latest_id(number_of_documents: Option<usize>, increase: usize) -> (r: usize)
    requires
        number_of_documents matches Some(n) ==> n + increase <= usize::MAX,
    ensures
        r == match number_of_documents {
            Some(n) => n + increase,
            None => 0,
        },
{
    match number_of_documents {
        Some(n) => n + increase,
        None => 0,
    }
}

/// `POST /manga` after the insert: when exactly one record was created,
/// `Created` with its JSON, and its key and names are added to the search
/// index; when none was, `NotAcceptable` with "Failed to Create"; when
/// several were, `Created` with "Failed to Create". Only a single created
/// record is indexed.
pub fn manga_post_answer(records: Vec<StoredManga>) -> (r: MangaAnswer)
    ensures
        r.reply.header is None,
        r.cache is Keep,
        r.reply.status == (if records.len() > 0 {
            Status::Created
        } else {
            Status::NotAcceptable
        }),
        records.len() == 1 ==> r.reply.body@ == records[0].json@ && (r.index matches IndexAction::Add(
            e,
        ) && indexes(e, records[0])),
        records.len() != 1 ==> r.reply.body@ == "Failed to Create"@ && r.index is Keep,
{
    let index = if records.len() == 1 {
        IndexAction::Add(index_entry(&records[0]))
    } else {
        IndexAction::Keep
    };
    let mut texts: Vec<String> = Vec::new();
    let mut i: usize = 0;
    while i < records.len()
        invariant
            i <= records.len(),
            texts.len() == i,
            forall|j: int| 0 <= j < i ==> (#[trigger] texts[j])@ == records[j].json@,
        decreases records.len() - i,
    {
        texts.push(owned(records[i].json.as_str()));
        i += 1;
    }
    MangaAnswer { reply: creation_reply(texts, "Failed to Create"), cache: CacheAction::Keep, index }
}

/// `PATCH /manga?id=..` after the update: `Created` with the updated
/// record's JSON, whose key and names are then added to the search index,
/// or `NotFound` with "No Data Found | Failed to Create" and no index
/// write. Either text is then stored in the cache under the request's URI.
pub fn manga_patch_answer(uri: String, record: Option<StoredManga>) -> (r: MangaAnswer)
    ensures
        r.reply.header is None,
        match record {
            Some(m) => r.reply.status == Status::Created && r.reply.body@ == m.json@ && (
            r.index matches IndexAction::Add(e) && indexes(e, m)),
            None => r.reply.status == Status::NotFound && r.reply.body@
                == "No Data Found | Failed to Create"@ && r.index is Keep,
        },
        r.cache matches CacheAction::Store { key, value } && key@ == uri@ && value@
            == r.reply.body@,
{
    let (json, index) = match &record {
        Some(m) => (Some(owned(m.json.as_str())), IndexAction::Add(index_entry(m))),
        None => (None, IndexAction::Keep),
    };
    let answer = cached_update_answer(uri, json, "No Data Found | Failed to Create");
    MangaAnswer { reply: answer.reply, cache: answer.cache, index }
}

/// `DELETE /manga?id=..` after the deletion: "Data Deleted" when a record
/// was removed, "No Data Found" when there was none; either way the cache
/// entry under the request's URI is dropped.
pub fn manga_delete_answer(uri: String, deleted: bool) -> (r: Answer)
    ensures
        r.reply.header is None,
        deleted ==> r.reply.status == Status::Success && r.reply.body@ == "Data Deleted"@,
        !deleted ==> r.reply.status == Status::NotFound && r.reply.body@ == "No Data Found"@,
        r.cache matches CacheAction::Delete { key } && key@ == uri@,
{
    Answer {
        reply: deletion_reply(deleted),
        cache: CacheAction::Delete { key: Caching::new(uri).get_key() },
    }
}

} // verus!

//! A user's progress on an anime (`/anime/user`): the relation between a
//! user and an anime, and what storing it answers.
use vstd::prelude::*;

use crate::handlers::reply::{deletion_reply, record_reply, Reply, Status};
use crate::records::{clock_reading, lemma_clock_reading_is_a_time, now, RecordId, Timestamp};
use crate::text::{concat, owned};

verus! {

/// How far a user is with an anime. `score_bits` holds the IEEE-754 bits
/// of the user's score.
#[derive(Debug, PartialEq, Eq)]
pub struct UserAnime {
    pub watched: i64,
    pub score_bits: u64,
    pub status: String,
}

/// What became of a write of the relation: the stored record as JSON, a
/// stored record that could not be written as JSON, no record, or a
/// database error with its message.
pub enum StoreOutcome {
    Stored(String),
    SerializeFailed,
    NothingStored,
    DatabaseError(String),
}

/// What a write of the relation answers: the record's JSON, or a message
/// that says what went wrong. `missing` is the message for a write that
/// stored nothing.
pub open spec fn store_result_spec(outcome: StoreOutcome, missing: Seq<char>) -> Result<
    Seq<char>,
    Seq<char>,
> {
    match outcome {
        StoreOutcome::Stored(json) => Ok(json@),
        StoreOutcome::SerializeFailed => Err("Failed to Serialize Data"@),
        StoreOutcome::NothingStored => Err(missing),
        StoreOutcome::DatabaseError(e) => Err("Database Error: "@ + e@),
    }
}

/// The texts of a result of strings.
pub open spec fn result_texts(r: Result<String, String>) -> Result<Seq<char>, Seq<char>> {
    match r {
        Ok(s) => Ok(s@),
        Err(e) => Err(e@),
    }
}

fn store_result(outcome: StoreOutcome, missing: &str) -> (r: Result<String, String>)
    ensures
        result_texts(r) == store_result_spec(outcome, missing@),
{
    match outcome {
        StoreOutcome::Stored(json) => Ok(json),
        StoreOutcome::SerializeFailed => Err(owned("Failed to Serialize Data")),
        StoreOutcome::NothingStored => Err(owned(missing)),
        StoreOutcome::DatabaseError(e) => Err(concat("Database Error: ", e.as_str())),
    }
}

/// Building the relation between a user and an anime.
pub trait UserAnimeActions {
    fn new(user_id: &String, anime_id: &String, base: UserAnime) -> Self where Self: Sized;
}

/// A new relation between a user and an anime, with its creation time.
#[derive(Debug)]
pub struct UserAnimeCreate {
    pub user_id: RecordId,
    pub anime_id: RecordId,
    pub base: UserAnime,
    pub updated_at: Timestamp,
    pub created_at: Timestamp,
}

/// `r` is the new relation from user `user_id` to anime `anime_id` with
/// progress `base`, stamped with clock readings as its creation and update
/// times.
pub open spec fn new_relation(
    user_id: Seq<char>,
    anime_id: Seq<char>,
    base: UserAnime,
    r: UserAnimeCreate,
) -> bool {
    &&& r.user_id.tb@ == "user"@
    &&& r.user_id.id@ == user_id
    &&& r.anime_id.tb@ == "anime"@
    &&& r.anime_id.id@ == anime_id
    &&& r.base == base
    &&& clock_reading(r.created_at)
    &&& clock_reading(r.updated_at)
}

/// `r` is the change of the relation from user `user_id` to anime
/// `anime_id` to progress `base`, stamped with a clock reading as its update
/// time.
pub open spec fn relation_change(
    user_id: Seq<char>,
    anime_id: Seq<char>,
    base: UserAnime,
    r: UserAnimeUpdate,
) -> bool {
    &&& r.user_id.tb@ == "user"@
    &&& r.user_id.id@ == user_id
    &&& r.anime_id.tb@ == "anime"@
    &&& r.anime_id.id@ == anime_id
    &&& r.base == base
    &&& clock_reading(r.updated_at)
}

impl UserAnimeActions for UserAnimeCreate {
    /// The relation from user `user_id` to anime `anime_id`, made now.
    fn new(user_id: &String, anime_id: &String, base: UserAnime) -> (r: UserAnimeCreate)
        ensures
            r.user_id.tb@ == "user"@,
            r.user_id.id@ == user_id@,
            r.anime_id.tb@ == "anime"@,
            r.anime_id.id@ == anime_id@,
            r.base == base,
            clock_reading(r.created_at),
            clock_reading(r.updated_at),
            new_relation(user_id@, anime_id@, base, r),
    {
        let updated_at = now();
        let created_at = now();
        UserAnimeCreate {
            user_id: RecordId::new("user", user_id.as_str()),
            anime_id: RecordId::new("anime", anime_id.as_str()),
            base,
            updated_at,
            created_at,
        }
    }
}

impl UserAnimeCreate {
    /// What creating the relation answers; a write that stored nothing
    /// gives "Failed to Create Record".
    pub fn store_result(outcome: StoreOutcome) -> (r: Result<String, String>)
        ensures
            result_texts(r) == store_result_spec(outcome, "Failed to Create Record"@),
    {
        store_result(outcome, "Failed to Create Record")
    }
}

/// A change to the relation between a user and an anime, with the time
/// of the change.
#[derive(Debug)]
pub struct UserAnimeUpdate {
    pub user_id: RecordId,
    pub anime_id: RecordId,
    pub base: UserAnime,
    pub updated_at: Timestamp,
}

impl UserAnimeActions for UserAnimeUpdate {
    /// The change of the relation from user `user_id` to anime `anime_id`,
    /// made now.
    fn new(user_id: &String, anime_id: &String, base: UserAnime) -> (r: UserAnimeUpdate)
        ensures
            r.user_id.tb@ == "user"@,
            r.user_id.id@ == user_id@,
            r.anime_id.tb@ == "anime"@,
            r.anime_id.id@ == anime_id@,
            r.base == base,
            clock_reading(r.updated_at),
            relation_change(user_id@, anime_id@, base, r),
    {
        let updated_at = now();
        UserAnimeUpdate {
            user_id: RecordId::new("user", user_id.as_str()),
            anime_id: RecordId::new("anime", anime_id.as_str()),
            base,
            updated_at,
        }
    }
}

impl UserAnimeUpdate {
    /// What updating the relation answers; a write that stored nothing
    /// gives "Failed to Update Record".
    pub fn store_result(outcome: StoreOutcome) -> (r: Result<String, String>)
        ensures
            result_texts(r) == store_result_spec(outcome, "Failed to Update Record"@),
    {
        store_result(outcome, "Failed to Update Record")
    }
}

/// A stored relation between a user and an anime.
#[derive(Debug)]
pub struct UserAnimeRecord {
    pub id: RecordId,
    pub input: RecordId,
    pub output: RecordId,
    pub base: UserAnime,
    pub updated_at: Timestamp,
    pub created_at: Timestamp,
}

/// A new relation is stamped when it is made: its creation and update times
/// are clock readings, real times at or after the Unix epoch, never a time
/// made up without reading the clock.
pub proof fn lemma_new_relation_is_stamped(
    user_id: Seq<char>,
    anime_id: Seq<char>,
    base: UserAnime,
    r: UserAnimeCreate,
)
    requires
        new_relation(user_id, anime_id, base, r),
    ensures
        clock_reading(r.created_at),
        clock_reading(r.updated_at),
        r.created_at.secs >= 0,
        r.updated_at.secs >= 0,
{
    lemma_clock_reading_is_a_time(r.created_at);
    lemma_clock_reading_is_a_time(r.updated_at);
}

/// A change of a relation carries the time it was made: its update time is
/// a clock reading, a real time at or after the Unix epoch, never a time
/// made up without reading the clock.
pub proof fn lemma_relation_change_is_stamped(
    user_id: Seq<char>,
    anime_id: Seq<char>,
    base: UserAnime,
    r: UserAnimeUpdate,
)
    requires
        relation_change(user_id, anime_id, base, r),
    ensures
        clock_reading(r.updated_at),
        r.updated_at.secs >= 0,
{
    lemma_clock_reading_is_a_time(r.updated_at);
}

/// A relation and a change of it made for the same user and anime point at
/// the same user record and the same anime record.
pub proof fn lemma_change_targets_the_same_relation(
    user_id: Seq<char>,
    anime_id: Seq<char>,
    created: UserAnime,
    changed: UserAnime,
    c: UserAnimeCreate,
    u: UserAnimeUpdate,
)
    requires
        new_relation(user_id, anime_id, created, c),
        relation_change(user_id, anime_id, changed, u),
    ensures
        c.user_id.tb@ == u.user_id.tb@,
        c.user_id.id@ == u.user_id.id@,
        c.anime_id.tb@ == u.anime_id.tb@,
        c.anime_id.id@ == u.anime_id.id@,
{
}

/// The answer to a write of the relation: `stored` with the record's JSON,
/// or `NotAcceptable` with the message.
pub fn user_anime_reply(result: Result<String, String>, stored: Status) -> (r: Reply)
    ensures
        r.header is None,
        match result {
            Ok(json) => r.status == stored && r.body@ == json@,
            Err(e) => r.status == Status::NotAcceptable && r.body@ == e@,
        },
{
    match result {
        Ok(json) => Reply { status: stored, body: json, header: None },
        Err(e) => Reply { status: Status::NotAcceptable, body: e, header: None },
    }
}

/// The query that relates a user to an anime, with the progress and the
/// times given as parameters.
pub fn relate_user_anime_query() -> (r: String)
    ensures
        r@ == "
            RELATE $user_id->has_anime->$anime_id SET
            watched = $watched,
            score = $score,
            status = $status,
            updated_at = $updated_at,
            created_at = $created_at;"@,
{
    owned(
        "
            RELATE $user_id->has_anime->$anime_id SET
            watched = $watched,
            score = $score,
            status = $status,
            updated_at = $updated_at,
            created_at = $created_at;",
    )
}

/// The query that changes the relation between a user and an anime.
pub fn update_user_anime_query() -> (r: String)
    ensures
        r@ == "UPDATE (SELECT id FROM has_anime WHERE in = $user_id AND out = $anime_id) SET score = $score, watched = $watched status = $status, updated_at = $updated_at;"@,
{
    owned(
        "UPDATE (SELECT id FROM has_anime WHERE in = $user_id AND out = $anime_id) SET score = $score, watched = $watched status = $status, updated_at = $updated_at;",
    )
}

/// `GET /anime/user?id=..`: the relation's JSON with `Success`, or
/// `NotFound` with "No Data Found".
pub fn user_anime_get_reply(record: Option<String>) -> (r: Reply)
    ensures
        r.header is None,
        match record {
            Some(json) => r.status == Status::Success && r.body@ == json@,
            None => r.status == Status::NotFound && r.body@ == "No Data Found"@,
        },
{
    record_reply(record, Status::Success, Status::NotFound, "No Data Found")
}

/// `POST /anime/user`: the created relation's JSON with `Created`, or the
/// message with `NotAcceptable`.
pub fn user_anime_post_reply(result: Result<String, String>) -> (r: Reply)
    ensures
        r.header is None,
        match result {
            Ok(json) => r.status == Status::Created && r.body@ == json@,
            Err(e) => r.status == Status::NotAcceptable && r.body@ == e@,
        },
{
    user_anime_reply(result, Status::Created)
}

/// `PATCH /anime/user`: the changed relation's JSON with `Success`, or the
/// message with `NotAcceptable`.
pub fn user_anime_patch_reply(result: Result<String, String>) -> (r: Reply)
    ensures
        r.header is None,
        match result {
            Ok(json) => r.status == Status::Success && r.body@ == json@,
            Err(e) => r.status == Status::NotAcceptable && r.body@ == e@,
        },
{
    user_anime_reply(result, Status::Success)
}

/// `DELETE /anime/user?id=..`: "Data Deleted" when the relation was there,
/// "No Data Found" with `NotFound` when not.
pub fn user_anime_delete_reply(deleted: bool) -> (r: Reply)
    ensures
        r.header is None,
        deleted ==> r.status == Status::Success && r.body@ == "Data Deleted"@,
        !deleted ==> r.status == Status::NotFound && r.body@ == "No Data Found"@,
{
    deletion_reply(deleted)
}

} // verus!

//! A user's progress on a manga (`/manga/user`).
use vstd::prelude::*;

use crate::handlers::reply::{deletion_reply, record_reply, Reply, Status};
use crate::records::{RecordId, Timestamp};
use crate::text::owned;

verus! {

/// How far a user is with a manga.
#[derive(Debug, PartialEq, Eq)]
pub struct UserManga {
    pub read: u16,
    pub score: u8,
    pub status: String,
}

impl Clone for UserManga {
    fn clone(&self) -> (r: Self)
        ensures
            r == *self,
    {
        UserManga { read: self.read, score: self.score, status: self.status.clone() }
    }
}

/// Access to the progress that a value carries.
pub trait UserMangaField {
    fn base(&self) -> UserManga;
}

impl UserMangaField for UserManga {
    /// The progress itself.
    fn base(&self) -> (r: UserManga)
        ensures
            r == *self,
    {
        self.clone()
    }
}

/// A new relation between a user and a manga.
#[derive(Debug)]
pub struct UserMangaCreate {
    pub user_id: RecordId,
    pub manga_id: RecordId,
    pub base: UserManga,
}

impl UserMangaCreate {
    /// The relation from user `uid` to manga `mid`.
    pub fn new(uid: &str, mid: &str, base: UserManga) -> (r: UserMangaCreate)
        ensures
            r.user_id.tb@ == "user"@,
            r.user_id.id@ == uid@,
            r.manga_id.tb@ == "manga"@,
            r.manga_id.id@ == mid@,
            r.base == base,
    {
        UserMangaCreate {
            user_id: RecordId::new("user", uid),
            manga_id: RecordId::new("manga", mid),
            base,
        }
    }
}

/// A change to a user's progress on a manga, with the time of the change.
#[derive(Debug)]
pub struct UserMangaUpdate {
    pub base: UserManga,
    pub updated_at: Timestamp,
}

/// A stored relation between a user and a manga.
#[derive(Debug)]
pub struct UserMangaRecord {
    pub id: RecordId,
    pub input: RecordId,
    pub output: RecordId,
    pub base: UserManga,
    pub updated_at: Timestamp,
    pub created_at: Timestamp,
}

/// The query that relates a user to a manga, with the progress given as
/// parameters and the times taken when it runs.
pub fn relate_user_manga_query() -> (r: String)
    ensures
        r@ == "RELATE $user_id->user_manga->$manga_id SET 
            read = $read, 
            score = $score, 
            status = $status, 
            updated_at = time::now(), 
            created_at = time::now();"@,
{
    owned(
        "RELATE $user_id->user_manga->$manga_id SET 
            read = $read, 
            score = $score, 
            status = $status, 
            updated_at = time::now(), 
            created_at = time::now();",
    )
}

/// `GET /manga/user?id=..`: the relation's JSON with `Success`, or
/// `NotFound` with "No Data Found".
pub fn user_manga_get_reply(record: Option<String>) -> (r: Reply)
    ensures
        r.header is None,
        match record {
            Some(json) => r.status == Status::Success && r.body@ == json@,
            None => r.status == Status::NotFound && r.body@ == "No Data Found"@,
        },
{
    record_reply(record, Status::Success, Status::NotFound, "No Data Found")
}

/// `POST /manga/user` and `PATCH /manga/user?id=..`: the stored relation's
/// JSON with `Created`, or `NotAcceptable` with "No Data Created".
pub fn user_manga_write_reply(record: Option<String>) -> (r: Reply)
    ensures
        r.header is None,
        match record {
            Some(json) => r.status == Status::Created && r.body@ == json@,
            None => r.status == Status::NotAcceptable && r.body@ == "No Data Created"@,
        },
{
    record_reply(record, Status::Created, Status::NotAcceptable, "No Data Created")
}

/// `DELETE /manga/user?id=..`: "Data Deleted" when the relation was there,
/// "No Data Found" with `NotFound` when not.
pub fn user_manga_delete_reply(deleted: bool) -> (r: Reply)
    ensures
        r.header is None,
        deleted ==> r.status == Status::Success && r.body@ == "Data Deleted"@,
        !deleted ==> r.status == Status::NotFound && r.body@ == "No Data Found"@,
{
    deletion_reply(deleted)
}

} // verus!

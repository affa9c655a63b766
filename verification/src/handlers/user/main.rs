//! The answers of `/user`.
use vstd::prelude::*;

use crate::handlers::reply::{creation_reply, deletion_reply, record_reply, Reply, Status};

verus! {

/// `GET /user?uid=..`: the user's JSON with `Success`, or `NotFound` with
/// "No Data Found".
pub fn user_get_reply(record: Option<String>) -> (r: Reply)
    ensures
        r.header is None,
        match record {
            Some(json) => r.status == Status::Success && r.body@ == json@,
            None => r.status == Status::NotFound && r.body@ == "No Data Found"@,
        },
{
    record_reply(record, Status::Success, Status::NotFound, "No Data Found")
}

/// `POST /user`: the created user's JSON when exactly one was created,
/// "No Data Found" otherwise; `Created` when any was, `NotAcceptable` when
/// none was.
pub fn user_post_reply(records: Vec<String>) -> (r: Reply)
    ensures
        r.header is None,
        r.status == (if records.len() > 0 {
            Status::Created
        } else {
            Status::NotAcceptable
        }),
        records.len() == 1 ==> r.body@ == records[0]@,
        records.len() != 1 ==> r.body@ == "No Data Found"@,
{
    creation_reply(records, "No Data Found")
}

/// `PATCH /user?id=..`: the updated user's JSON with `Success`, or
/// `NotFound` with "No Data Found".
pub fn user_patch_reply(record: Option<String>) -> (r: Reply)
    ensures
        r.header is None,
        match record {
            Some(json) => r.status == Status::Success && r.body@ == json@,
            None => r.status == Status::NotFound && r.body@ == "No Data Found"@,
        },
{
    record_reply(record, Status::Success, Status::NotFound, "No Data Found")
}

/// `DELETE /user?uid=..`: "Data Deleted" when the user was there, "No Data
/// Found" with `NotFound` when not.
pub fn user_delete_reply(deleted: bool) -> (r: Reply)
    ensures
        r.header is None,
        deleted ==> r.status == Status::Success && r.body@ == "Data Deleted"@,
        !deleted ==> r.status == Status::NotFound && r.body@ == "No Data Found"@,
{
    deletion_reply(deleted)
}

} // verus!

//! The answers that the handlers give: a status, a body and at most one
//! extra header, decided from what the store and the cache handed back.
use vstd::prelude::*;

use crate::middleware::caching::{CacheAction, Caching};
use crate::text::{concat, decimal, i64_to_text, owned, signed_decimal, u64_to_text};

verus! {

/// The HTTP statuses that the handlers answer with.
#[derive(Debug, Clone, Copy, PartialEq, Eq, Structural)]
pub enum Status {
    Success,
    Created,
    Found,
    BadRequest,
    NotFound,
    NotAcceptable,
    InternalServerError,
}

impl Status {
    /// The numeric HTTP status code.
    pub open spec fn spec_code(&self) -> u16 {
        match self {
            Status::Success => 200,
            Status::Created => 201,
            Status::Found => 302,
            Status::BadRequest => 400,
            Status::NotFound => 404,
            Status::NotAcceptable => 406,
            Status::InternalServerError => 500,
        }
    }

    /// The numeric HTTP status code.
    #[verifier::when_used_as_spec(spec_code)]
    pub fn code(&self) -> (r: u16)
        ensures
            r == self.spec_code(),
    {
        match self {
            Status::Success => 200,
            Status::Created => 201,
            Status::Found => 302,
            Status::BadRequest => 400,
            Status::NotFound => 404,
            Status::NotAcceptable => 406,
            Status::InternalServerError => 500,
        }
    }
}

/// An answer to a request.
pub struct Reply {
    pub status: Status,
    pub body: String,
    /// An extra response header, as name and value.
    pub header: Option<(String, String)>,
}

/// An answer together with what it does to the cache.
pub struct Answer {
    pub reply: Reply,
    pub cache: CacheAction,
}

/// The name of the header that tells how long a cached answer stays valid.
pub open spec fn remaining_time_header() -> Seq<char> {
    "X-Cache-Remaining-Time"@
}

/// A reply with the given status and body and no extra header.
pub fn reply(status: Status, body: &str) -> (r: Reply)
    ensures
        r.status == status,
        r.body@ == body@,
        r.header is None,
{
    Reply { status, body: owned(body), header: None }
}

/// The answer for one stored record: `found` with the record's JSON when
/// there is one, `absent` with the text `missing` when there is none.
pub fn record_reply(record: Option<String>, found: Status, absent: Status, missing: &str) -> (r:
    Reply)
    ensures
        r.header is None,
        match record {
            Some(json) => r.status == found && r.body@ == json@,
            None => r.status == absent && r.body@ == missing@,
        },
{
    match record {
        Some(json) => Reply { status: found, body: json, header: None },
        None => reply(absent, missing),
    }
}

/// A read of one record that caches what it finds: the record's JSON with
/// `Success`, which is then stored under the request's URI, or `missing`
/// with `NotFound`, which is not.
pub fn cached_lookup_answer(uri: String, record: Option<String>, missing: &str) -> (r: Answer)
    ensures
        r.reply.header is None,
        match record {
            Some(json) => {
                &&& r.reply.status == Status::Success
                &&& r.reply.body@ == json@
                &&& r.cache matches CacheAction::Store { key, value } && key@ == uri@ && value@
                    == json@
            },
            None => {
                &&& r.reply.status == Status::NotFound
                &&& r.reply.body@ == missing@
                &&& r.cache is Keep
            },
        },
{
    let cache = match &record {
        Some(json) => CacheAction::Store {
            key: Caching::new(uri).get_key(),
            value: owned(json.as_str()),
        },
        None => CacheAction::Keep,
    };
    Answer { reply: record_reply(record, Status::Success, Status::NotFound, missing), cache }
}

/// An update that caches its answer: `Created` with the updated record's
/// JSON, or `NotFound` with `missing`; either text is then stored under
/// the request's URI.
pub fn cached_update_answer(uri: String, record: Option<String>, missing: &str) -> (r: Answer)
    ensures
        r.reply.header is None,
        match record {
            Some(json) => r.reply.status == Status::Created && r.reply.body@ == json@,
            None => r.reply.status == Status::NotFound && r.reply.body@ == missing@,
        },
        r.cache matches CacheAction::Store { key, value } && key@ == uri@ && value@
            == r.reply.body@,
{
    let reply = record_reply(record, Status::Created, Status::NotFound, missing);
    let value = owned(reply.body.as_str());
    Answer { reply, cache: CacheAction::Store { key: Caching::new(uri).get_key(), value } }
}

/// The answer to a request that created records: the record's JSON when
/// exactly one was created, `missing` otherwise; `Created` when any record
/// was created, `NotAcceptable` when none was.
pub fn creation_reply(records: Vec<String>, missing: &str) -> (r: Reply)
    ensures
        r.header is None,
        r.status == (if records.len() > 0 {
            Status::Created
        } else {
            Status::NotAcceptable
        }),
        records.len() == 1 ==> r.body@ == records[0]@,
        records.len() != 1 ==> r.body@ == missing@,
{
    let status = if records.len() > 0 {
        Status::Created
    } else {
        Status::NotAcceptable
    };
    if records.len() == 1 {
        Reply { status, body: owned(records[0].as_str()), header: None }
    } else {
        reply(status, missing)
    }
}

/// The answer to a search: the matching records as JSON when any record is
/// stored at all, `missing` with `NotFound` when none is.
pub fn listing_reply(any_stored: bool, json: String, missing: &str) -> (r: Reply)
    ensures
        r.header is None,
        any_stored ==> r.status == Status::Success && r.body@ == json@,
        !any_stored ==> r.status == Status::NotFound && r.body@ == missing@,
{
    if any_stored {
        Reply { status: Status::Success, body: json, header: None }
    } else {
        reply(Status::NotFound, missing)
    }
}

/// The answer to a deletion: `Success` with "Data Deleted" when the record was
/// there, `NotFound` with "No Data Found" when it was not.
pub fn deletion_reply(deleted: bool) -> (r: Reply)
    ensures
        r.header is None,
        deleted ==> r.status == Status::Success && r.body@ == "Data Deleted"@,
        !deleted ==> r.status == Status::NotFound && r.body@ == "No Data Found"@,
{
    if deleted {
        reply(Status::Success, "Data Deleted")
    } else {
        reply(Status::NotFound, "No Data Found")
    }
}

/// The answer to a request that lacks the record's id.
pub fn bad_request() -> (r: Reply)
    ensures
        r.status == Status::BadRequest,
        r.body@ == "Bad Request"@,
        r.header is None,
{
    reply(Status::BadRequest, "Bad Request")
}

/// The answer from the cache: `Success` with the cached text, and a header that
/// gives the seconds the cached entry has left.
pub fn cached_reply(data: String, remaining: i64) -> (r: Reply)
    ensures
        r.status == Status::Success,
        r.body@ == data@,
        r.header matches Some((name, value)) && name@ == remaining_time_header() && value@
            == signed_decimal(remaining as int),
{
    Reply {
        status: Status::Success,
        body: data,
        header: Some((owned("X-Cache-Remaining-Time"), i64_to_text(remaining))),
    }
}

/// The answer that tells how many records an import created:
/// "<n> records created".
pub fn records_created_text(count: u64) -> (r: String)
    ensures
        r@ == decimal(count as nat) + " records created"@,
{
    let n = u64_to_text(count);
    concat(n.as_str(), " records created")
}

} // verus!

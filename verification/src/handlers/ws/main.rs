//! The live connection (`/ws`): what is done with each incoming frame,
//! and what is sent back for an anime request.
use vstd::prelude::*;

use crate::text::owned;

verus! {

/// Why a connection is closed: a close code and an optional text.
#[derive(Debug, PartialEq, Eq)]
pub struct CloseReason {
    pub code: u16,
    pub description: Option<String>,
}

/// A frame that arrived on the connection.
pub enum WsFrame {
    Ping(Vec<u8>),
    Pong,
    Text(String),
    Binary(Vec<u8>),
    Close(Option<CloseReason>),
    /// A continuation, a no-op, or a protocol error.
    Other,
}

/// What is done with a frame.
pub enum WsAction {
    /// Answer a ping with a pong that carries the same bytes.
    SendPong(Vec<u8>),
    /// Do nothing.
    Ignore,
    /// Read the text as a request and handle it.
    HandleText(String),
    /// Send the bytes back.
    SendBinary(Vec<u8>),
    /// Close the connection with the reason given.
    Close(Option<CloseReason>),
}

/// What is done with a frame: pings are answered, texts handled, binary
/// frames echoed, close frames honoured, and anything else ignored.
pub fn ws_step(frame: WsFrame) -> (r: WsAction)
    ensures
        match frame {
            WsFrame::Ping(b) => r matches WsAction::SendPong(x) && x@ == b@,
            WsFrame::Pong => r is Ignore,
            WsFrame::Text(t) => r matches WsAction::HandleText(x) && x@ == t@,
            WsFrame::Binary(b) => r matches WsAction::SendBinary(x) && x@ == b@,
            WsFrame::Close(reason) => r matches WsAction::Close(x) && x == reason,
            WsFrame::Other => r is Ignore,
        },
{
    match frame {
        WsFrame::Ping(b) => WsAction::SendPong(b),
        WsFrame::Pong => WsAction::Ignore,
        WsFrame::Text(t) => WsAction::HandleText(t),
        WsFrame::Binary(b) => WsAction::SendBinary(b),
        WsFrame::Close(reason) => WsAction::Close(reason),
        WsFrame::Other => WsAction::Ignore,
    }
}

/// The anime requests of the live connection.
#[derive(Debug, Clone, Copy, PartialEq, Eq, Structural)]
pub enum AnimeWsAction {
    Create,
    Update,
    Get,
}

/// What the database gave back for an anime request.
pub enum DbResult {
    /// A record, which the reply carries.
    Record,
    /// No record.
    NoRecord,
    /// An error, with its message.
    Failed(String),
}

/// A message sent back on the connection.
pub enum WsReply {
    /// `{"target": "anime", "action": .., "request_id": .., "data": <record>}`
    Done { action: String, request_id: Option<String> },
    /// `{"target": "error", "error": .., "request_id": ..}`
    Failed { error: String, request_id: Option<String> },
    /// `{"target": "error", "error": .., "details": .., "request_id": ..}`
    FailedWithDetails { error: String, details: String, request_id: Option<String> },
    /// `{"target": "error", "error": "Invalid WS payload", "details": ..}`
    InvalidPayload { details: String },
}

/// The action word of a successful anime request.
pub open spec fn done_word(a: AnimeWsAction) -> Seq<char> {
    match a {
        AnimeWsAction::Create => "created"@,
        AnimeWsAction::Update => "updated"@,
        AnimeWsAction::Get => "got"@,
    }
}

/// The error text of an anime request that found no record.
pub open spec fn no_record_text(a: AnimeWsAction) -> Seq<char> {
    match a {
        AnimeWsAction::Create => "No record created"@,
        AnimeWsAction::Update => "No record updated"@,
        AnimeWsAction::Get => "No record found"@,
    }
}

/// The error text of an anime request that the database refused.
pub open spec fn failure_text(a: AnimeWsAction) -> Seq<char> {
    match a {
        AnimeWsAction::Create => "Failed to create anime"@,
        AnimeWsAction::Update => "Failed to update anime"@,
        AnimeWsAction::Get => "Failed to get anime"@,
    }
}

/// The texts of an optional string.
pub open spec fn opt_text(o: Option<String>) -> Option<Seq<char>> {
    match o {
        Some(s) => Some(s@),
        None => None,
    }
}

/// The reply to an anime request once the database has answered.
pub fn anime_ws_reply(action: AnimeWsAction, request_id: Option<String>, result: DbResult) -> (r:
    WsReply)
    ensures
        match result {
            DbResult::Record => r matches WsReply::Done { action: word, request_id: id }
                && word@ == done_word(action) && opt_text(id) == opt_text(request_id),
            DbResult::NoRecord => r matches WsReply::Failed { error, request_id: id } && error@
                == no_record_text(action) && opt_text(id) == opt_text(request_id),
            DbResult::Failed(e) => r matches WsReply::FailedWithDetails {
                error,
                details,
                request_id: id,
            } && error@ == failure_text(action) && details@ == e@ && opt_text(id) == opt_text(
                request_id,
            ),
        },
{
    match result {
        DbResult::Record => {
            let word = match action {
                AnimeWsAction::Create => owned("created"),
                AnimeWsAction::Update => owned("updated"),
                AnimeWsAction::Get => owned("got"),
            };
            WsReply::Done { action: word, request_id }
        },
        DbResult::NoRecord => {
            let error = match action {
                AnimeWsAction::Create => owned("No record created"),
                AnimeWsAction::Update => owned("No record updated"),
                AnimeWsAction::Get => owned("No record found"),
            };
            WsReply::Failed { error, request_id }
        },
        DbResult::Failed(e) => {
            let error = match action {
                AnimeWsAction::Create => owned("Failed to create anime"),
                AnimeWsAction::Update => owned("Failed to update anime"),
                AnimeWsAction::Get => owned("Failed to get anime"),
            };
            WsReply::FailedWithDetails { error, details: e, request_id }
        },
    }
}

/// The reply to a text that is no valid request.
pub fn invalid_payload_reply(details: String) -> (r: WsReply)
    ensures
        r matches WsReply::InvalidPayload { details: d } && d@ == details@,
{
    WsReply::InvalidPayload { details }
}

} // verus!

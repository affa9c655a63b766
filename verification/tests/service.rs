use api::handlers::manga::main::{
    latest_id, manga_delete_answer, manga_get_answer, manga_get_step, manga_patch_answer,
    manga_post_answer, IndexAction, IndexEntry, Manga, MangaField, MangaGetStep, MangaNames,
    StoredManga,
};
use api::handlers::manga::search::{filter_manga_search, MangaSearch};
use api::handlers::manga::user::{UserManga, UserMangaCreate, UserMangaField};
use api::handlers::anime::search::SearchForm;
use api::handlers::reply::{
    bad_request, cached_reply, creation_reply, deletion_reply, listing_reply, record_reply, Status,
};
use api::handlers::status::main::status_report;
use api::handlers::ws::main::{
    anime_ws_reply, invalid_payload_reply, ws_step, AnimeWsAction, CloseReason, DbResult, WsAction,
    WsFrame, WsReply,
};
use api::middleware::caching::{CacheAction, Caching};
use api::middleware::logger::{log_output, LogLevel};
use api::modules::error_handler::CustomError;
use api::modules::request::{request_url, Uri};
use api::records::RecordId;

#[test]
fn status_codes() {
    let codes: Vec<u16> = [Status::Success, Status::Created, Status::Found, Status::BadRequest, Status::NotFound, Status::NotAcceptable, Status::InternalServerError]
        .iter()
        .map(|s| s.code())
        .collect();
    assert_eq!(codes, vec![200, 201, 302, 400, 404, 406, 500]);
}

#[test]
fn generic_replies() {
    let r = record_reply(Some("{}".into()), Status::Success, Status::NotFound, "No Data Found");
    assert_eq!((r.status, r.body.as_str()), (Status::Success, "{}"));
    let r = record_reply(None, Status::Created, Status::NotAcceptable, "No Data Created");
    assert_eq!((r.status, r.body.as_str()), (Status::NotAcceptable, "No Data Created"));
    let r = creation_reply(vec![], "No Data Found");
    assert_eq!((r.status, r.body.as_str()), (Status::NotAcceptable, "No Data Found"));
    let r = deletion_reply(true);
    assert_eq!((r.status, r.body.as_str()), (Status::Success, "Data Deleted"));
    let r = bad_request();
    assert_eq!((r.status, r.body.as_str()), (Status::BadRequest, "Bad Request"));
    let r = cached_reply("data".into(), 3599);
    assert_eq!(r.body, "data");
    assert_eq!(r.header, Some(("X-Cache-Remaining-Time".to_string(), "3599".to_string())));
    let r = cached_reply("data".into(), -2);
    assert_eq!(r.header.unwrap().1, "-2");
    let r = listing_reply(false, "[]".into(), "Not Found");
    assert_eq!((r.status, r.body.as_str()), (Status::NotFound, "Not Found"));
    let r = listing_reply(true, "[]".into(), "Not Found");
    assert_eq!((r.status, r.body.as_str()), (Status::Success, "[]"));
}

#[test]
fn cache_entries_are_keyed_by_uri() {
    let c = Caching::new("/anime?id=1".to_string());
    assert_eq!(c.time, 3600);
    assert_eq!(c.get_key(), "/anime?id=1");
}

fn manga_names(o: &str, en: &str, jp: &str) -> MangaNames {
    MangaNames { original: o.into(), en: en.into(), jp: jp.into() }
}

#[test]
fn manga_search_and_answers() {
    let records = vec![
        MangaSearch { id: RecordId::new("manga", "1"), names: manga_names("Berserk", "Berserk", "ベルセルク") },
        MangaSearch { id: RecordId::new("manga", "2"), names: manga_names("Monster", "Monster", "モンスター") },
    ];
    let r = filter_manga_search(&records, &SearchForm { q: "ster".into(), l: 0 });
    assert_eq!(r, vec![records[1].clone()]);
    let r = filter_manga_search(&records, &SearchForm { q: String::new(), l: 1 });
    assert_eq!(r, vec![records[0].clone()]);
    let g = manga_get_answer("/manga?id=1".into(), None);
    assert_eq!(g.reply.body, "No Data Found");
    let p = manga_patch_answer("/manga?id=1".into(), None);
    assert_eq!(p.reply.body, "No Data Found | Failed to Create");
    assert!(matches!(p.cache, CacheAction::Store { ref value, .. } if value == "No Data Found | Failed to Create"));
    assert!(matches!(p.index, IndexAction::Keep));
    let d = manga_delete_answer("/manga?id=1".into(), false);
    assert_eq!(d.reply.status, Status::NotFound);
    assert!(matches!(d.cache, CacheAction::Delete { ref key } if key == "/manga?id=1"));
    let m = Manga {
        names: records[0].clone(),
        chapters: 1,
        volumes: 2,
        score: 9,
        status: "s".into(),
        types: vec![],
        platforms: vec![],
        genres: vec!["g".into()],
        tags: vec![],
        info_urls: vec![],
        read_urls: vec![],
        image_urls: vec![],
    };
    assert_eq!(m.base(), m);
    let u = UserManga { read: 3, score: 7, status: "reading".into() };
    assert_eq!(u.base(), u);
    let c = UserMangaCreate::new("u", "m", u.clone());
    assert_eq!(c.user_id, RecordId { tb: "user".into(), id: "u".into() });
    assert_eq!(c.manga_id, RecordId { tb: "manga".into(), id: "m".into() });
}

fn stored(id: &str, original: &str) -> StoredManga {
    StoredManga {
        json: format!("{{\"id\":\"manga:{}\"}}", id),
        id: RecordId::new("manga", id),
        names: manga_names(original, "en", "jp"),
    }
}

#[test]
fn manga_writes_feed_the_search_index() {
    let p = manga_patch_answer("/manga?id=7".into(), Some(stored("7", "Berserk")));
    assert_eq!(p.reply.status, Status::Created);
    assert_eq!(p.reply.body, "{\"id\":\"manga:7\"}");
    match p.index {
        IndexAction::Add(e) => assert_eq!(
            e,
            IndexEntry { db_id: "7".into(), original: "Berserk".into(), en: "en".into(), jp: "jp".into() }
        ),
        IndexAction::Keep => panic!("expected an index write"),
    }
    let c = manga_post_answer(vec![stored("8", "Monster")]);
    assert_eq!(c.reply.status, Status::Created);
    assert!(matches!(c.index, IndexAction::Add(ref e) if e.db_id == "8" && e.original == "Monster"));
    assert!(matches!(c.cache, CacheAction::Keep));
    let none = manga_post_answer(vec![]);
    assert_eq!((none.reply.status, none.reply.body.as_str()), (Status::NotAcceptable, "Failed to Create"));
    assert!(matches!(none.index, IndexAction::Keep));
    let two = manga_post_answer(vec![stored("1", "a"), stored("2", "b")]);
    assert_eq!((two.reply.status, two.reply.body.as_str()), (Status::Created, "Failed to Create"));
    assert!(matches!(two.index, IndexAction::Keep));
    assert_eq!(latest_id(Some(4), 1), 5);
    assert_eq!(latest_id(None, 1), 0);
    assert!(matches!(manga_get_step(Some("c".into())), MangaGetStep::ServeCached(d) if d == "c"));
    assert!(matches!(manga_get_step(None), MangaGetStep::Select));
}

#[test]
fn health_report() {
    assert_eq!(status_report(true, false), "Surreal is connected\nRedis is not connected");
    assert_eq!(status_report(false, true), "Surreal is not connected\nRedis is connected");
}

#[test]
fn websocket_frames_and_replies() {
    assert!(matches!(ws_step(WsFrame::Ping(vec![1, 2])), WsAction::SendPong(b) if b == vec![1, 2]));
    assert!(matches!(ws_step(WsFrame::Pong), WsAction::Ignore));
    assert!(matches!(ws_step(WsFrame::Text("hi".into())), WsAction::HandleText(t) if t == "hi"));
    assert!(matches!(ws_step(WsFrame::Binary(vec![3])), WsAction::SendBinary(b) if b == vec![3]));
    assert!(matches!(ws_step(WsFrame::Close(Some(CloseReason { code: 1000, description: None }))), WsAction::Close(Some(r)) if r.code == 1000));
    assert!(matches!(ws_step(WsFrame::Other), WsAction::Ignore));
    match anime_ws_reply(AnimeWsAction::Create, Some("r1".into()), DbResult::Record) {
        WsReply::Done { action, request_id } => {
            assert_eq!(action, "created");
            assert_eq!(request_id.as_deref(), Some("r1"));
        }
        _ => panic!(),
    }
    match anime_ws_reply(AnimeWsAction::Get, None, DbResult::NoRecord) {
        WsReply::Failed { error, .. } => assert_eq!(error, "No record found"),
        _ => panic!(),
    }
    match anime_ws_reply(AnimeWsAction::Update, None, DbResult::Failed("e".into())) {
        WsReply::FailedWithDetails { error, details, .. } => {
            assert_eq!(error, "Failed to update anime");
            assert_eq!(details, "e");
        }
        _ => panic!(),
    }
    assert!(matches!(invalid_payload_reply("bad".into()), WsReply::InvalidPayload { details } if details == "bad"));
}

#[test]
fn log_lines() {
    let o = log_output(LogLevel::Info, "hello");
    assert_eq!(o.console.as_deref(), Some("[INFO] - hello"));
    assert_eq!(o.file.as_deref(), Some("INFO - hello"));
    let o = log_output(LogLevel::Debug, "d");
    assert_eq!(o.console.as_deref(), Some("[DEBUG] - d"));
    assert_eq!(o.file, None);
    let o = log_output(LogLevel::Trace, "t");
    assert_eq!(o.console, None);
    assert_eq!(o.file, None);
    let o = log_output(LogLevel::Error, "e");
    assert_eq!(o.file.as_deref(), Some("ERROR - e"));
}

#[test]
fn error_messages() {
    assert_eq!(CustomError::ConstructError("x".into()).message(), "Failed to construct: x");
    assert_eq!(CustomError::DestructError("x".into()).message(), "Failed to destruct: x");
    assert_eq!(CustomError::ParseError("x".into()).message(), "Failed to parse: x");
    assert_eq!(CustomError::RequestError("x".into()).message(), "Failed to request: x");
    assert_eq!(CustomError::ResponseError("x".into()).message(), "Failed to get response: x");
    assert_eq!(CustomError::Error("x".into()).message(), "");
    assert_eq!(CustomError::Error("x".into()).logged().as_deref(), Some("Error: x"));
    assert_eq!(CustomError::TaskFailed.message(), "Task Failed");
    assert_eq!(CustomError::Unknown.message(), "Unknown Error");
    assert_eq!(CustomError::Test.message(), "");
    assert_eq!(CustomError::Test.logged().as_deref(), Some("Test Error: Test Error!"));
    assert_eq!(CustomError::Unknown.logged(), None);
}

#[test]
fn catalogue_addresses() {
    assert_eq!(request_url(Uri::AnimeUri, "?q=x"), "AnimeUri?q=x");
    assert_eq!(request_url(Uri::MangaUri, "1"), "MangaUri1");
}

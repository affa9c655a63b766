use api::constructor::jikan::anime::{
    Aired, Broadcast, Data, DataType, From, Genre, GenreType, Image, Images, Items, Pagination,
    Prop, Rating, Search, Source, Status, Trailer,
};
use api::handlers::anime::import::ImportTally;
use api::handlers::anime::main::{
    anime_delete_answer, anime_get_all_answer, anime_get_one_answer, anime_get_step,
    anime_patch_answer, anime_post_answer, require_id, Anime, AnimeField, AnimeGetStep, AnimeNames,
};
use api::handlers::anime::search::anime_search_reply;
use api::handlers::manga::search::manga_search_reply;
use api::handlers::manga::user::{
    relate_user_manga_query, user_manga_delete_reply, user_manga_get_reply, user_manga_write_reply,
};
use api::handlers::anime::request::{convert_search_to_anime, jikan_search_url};
use api::handlers::anime::search::{filter_anime_search, search_form_from_pairs, AnimeSearch, SearchForm};
use api::handlers::anime::user::{
    relate_user_anime_query, update_user_anime_query, user_anime_delete_reply, user_anime_get_reply,
    user_anime_patch_reply, user_anime_post_reply, user_anime_reply, StoreOutcome, UserAnime, UserAnimeActions, UserAnimeCreate, UserAnimeUpdate,
};
use api::handlers::reply::Status as Http;
use api::middleware::caching::CacheAction;
use api::records::RecordId;

fn genre(name: &str) -> Genre {
    Genre { mal_id: 1, genre_type: GenreType::Anime, name: name.to_string(), url: String::new() }
}

fn date() -> From {
    From { day: None, month: None, year: None }
}

fn data(title: Option<&str>, status: Status, url: Option<&str>) -> Data {
    Data {
        mal_id: 20,
        url: "https://myanimelist.net/anime/20".to_string(),
        images: vec![
            ("jpg".to_string(), Image { image_url: "a.jpg".to_string(), small_image_url: String::new(), large_image_url: String::new() }),
            ("webp".to_string(), Image { image_url: "a.webp".to_string(), small_image_url: String::new(), large_image_url: String::new() }),
        ],
        trailer: Trailer {
            youtube_id: None,
            url: url.map(|u| u.to_string()),
            embed_url: None,
            images: Images { image_url: None, small_image_url: None, medium_image_url: None, large_image_url: None, maximum_image_url: None },
        },
        approved: true,
        titles: vec![],
        title: title.map(|t| t.to_string()),
        title_english: Some("Naruto EN".to_string()),
        title_japanese: None,
        title_synonyms: vec![],
        data_type: DataType::Tv,
        source: Source::Manga,
        episodes: Some(220),
        status,
        airing: false,
        aired: Aired { from: String::new(), to: None, prop: Prop { from: date(), to: date() }, string: String::new() },
        duration: String::new(),
        rating: Rating::Pg13Teens13OrOlder,
        score_bits: Some(8.0f64.to_bits()),
        scored_by: 0,
        rank: None,
        popularity: 0,
        members: 0,
        favorites: 0,
        synopsis: None,
        background: None,
        season: None,
        year: None,
        broadcast: Broadcast { day: None, time: None, timezone: None, string: None },
        producers: vec![],
        licensors: vec![],
        studios: vec![],
        genres: vec![genre("Action"), genre("Adventure")],
        explicit_genres: vec![],
        themes: vec![genre("Martial Arts")],
        demographics: vec![],
    }
}

fn search(items: Vec<Data>) -> Search {
    Search {
        pagination: Pagination { last_visible_page: 1, has_next_page: false, current_page: 1, items: Items { count: 1, total: 1, per_page: 25 } },
        data: items,
    }
}

#[test]
fn jikan_results_become_anime_records() {
    let out = convert_search_to_anime(&search(vec![data(Some("Naruto"), Status::FinishedAiring, Some("https://yt/x"))]));
    assert_eq!(out.len(), 1);
    let a = &out[0];
    assert_eq!(a.names.original, "Naruto");
    assert_eq!(a.names.en.as_deref(), Some("Naruto EN"));
    assert_eq!(a.names.jp.as_deref(), Some(""));
    assert_eq!(a.season, 0);
    assert_eq!(a.episodes, 220);
    assert_eq!(f64::from_bits(a.score_bits), 8.0);
    assert_eq!(a.status, "Finished Airing");
    assert_eq!(a.types, vec!["Tv"]);
    assert_eq!(a.platforms, vec!["Manga"]);
    assert_eq!(a.genres, vec!["Action", "Adventure"]);
    assert_eq!(a.tags, vec!["Martial Arts"]);
    assert_eq!(a.trailer_urls, vec!["https://yt/x"]);
    assert_eq!(a.info_urls, vec!["https://myanimelist.net/anime/20"]);
    assert!(a.video_urls.is_empty());
    assert_eq!(a.image_urls, vec!["a.jpg", "a.webp"]);
}

#[test]
fn missing_fields_become_defaults() {
    let mut d = data(None, Status::NotYetAired, None);
    d.episodes = None;
    d.score_bits = None;
    let out = convert_search_to_anime(&search(vec![d]));
    assert_eq!(out[0].names.original, "");
    assert_eq!(out[0].episodes, 0);
    assert_eq!(out[0].score_bits, 0);
    assert_eq!(f64::from_bits(out[0].score_bits), 0.0);
    assert_eq!(out[0].status, "Not Yet Aired");
    assert!(out[0].trailer_urls.is_empty());
}

#[test]
fn every_status_has_its_label() {
    let cases = [
        (Status::FinishedAiring, "Finished Airing"),
        (Status::CurrentlyAiring, "Currently Airing"),
        (Status::NotYetAired, "Not Yet Aired"),
        (Status::Cancelled, "Cancelled"),
        (Status::Hiatus, "Hiatus"),
        (Status::TBA, "TBA"),
    ];
    for (s, label) in cases {
        let out = convert_search_to_anime(&search(vec![data(Some("x"), s, None)]));
        assert_eq!(out[0].status, label);
    }
}

#[test]
fn kinds_and_sources_are_named_as_debug_names_them() {
    for (t, name) in [(DataType::Ona, "Ona"), (DataType::Ova, "Ova"), (DataType::Special, "Special"), (DataType::Tv, "Tv"), (DataType::Movie, "Movie")] {
        let mut d = data(Some("x"), Status::TBA, None);
        d.data_type = t;
        assert_eq!(convert_search_to_anime(&search(vec![d]))[0].types, vec![name]);
        assert_eq!(format!("{:?}", t), name);
    }
    for (s, name) in [(Source::LightNovel, "LightNovel"), (Source::Manga, "Manga"), (Source::Original, "Original"), (Source::VisualNovel, "VisualNovel")] {
        let mut d = data(Some("x"), Status::TBA, None);
        d.source = s;
        assert_eq!(convert_search_to_anime(&search(vec![d]))[0].platforms, vec![name]);
        assert_eq!(format!("{:?}", s), name);
    }
}

#[test]
fn empty_search_gives_no_records() {
    assert!(convert_search_to_anime(&search(vec![])).is_empty());
}

#[test]
fn jikan_url_puts_the_text_in_the_query() {
    assert_eq!(jikan_search_url("naruto"), "https://api.jikan.moe/v4/anime?q=naruto");
}

fn names(o: &str, en: Option<&str>, jp: Option<&str>) -> AnimeNames {
    AnimeNames { original: o.to_string(), en: en.map(|s| s.to_string()), jp: jp.map(|s| s.to_string()) }
}

fn entry(id: &str, n: AnimeNames) -> AnimeSearch {
    AnimeSearch { id: RecordId::new("anime", id), names: n }
}

fn pairs(p: &[(&str, &str)]) -> Vec<(String, String)> {
    p.iter().map(|(k, v)| (k.to_string(), v.to_string())).collect()
}

#[test]
fn search_form_reads_q_and_l() {
    let f = search_form_from_pairs(&pairs(&[("q", "naru"), ("l", "2"), ("x", "y")]));
    assert_eq!(f, SearchForm { q: "naru".to_string(), l: 2 });
    let f = search_form_from_pairs(&pairs(&[("l", "two")]));
    assert_eq!(f, SearchForm { q: String::new(), l: 0 });
    let f = search_form_from_pairs(&pairs(&[("q", "a"), ("q", "b")]));
    assert_eq!(f.q, "b");
}

#[test]
fn search_returns_matching_names_up_to_the_limit() {
    let records = vec![
        entry("1", names("Naruto", None, None)),
        entry("2", names("Bleach", Some("Bleach"), None)),
        entry("3", names("Boruto", None, Some("ナルト"))),
        entry("4", names("One Piece", Some("Naruto Shippuden"), None)),
    ];
    let all = filter_anime_search(&records, &SearchForm { q: "aru".to_string(), l: 0 });
    assert_eq!(all.iter().map(|a| a.id.id.as_str()).collect::<Vec<_>>(), vec!["1", "4"]);
    let one = filter_anime_search(&records, &SearchForm { q: "aru".to_string(), l: 1 });
    assert_eq!(one, vec![records[0].clone()]);
    let jp = filter_anime_search(&records, &SearchForm { q: "ナル".to_string(), l: 0 });
    assert_eq!(jp.len(), 1);
    let everything = filter_anime_search(&records, &SearchForm { q: String::new(), l: 0 });
    assert_eq!(everything, records);
    let big = filter_anime_search(&records, &SearchForm { q: String::new(), l: 10 });
    assert_eq!(big.len(), 4);
}

#[test]
fn anime_get_steps() {
    assert!(matches!(anime_get_step(Some("cached".into()), Some("1".into())), AnimeGetStep::ServeCached(d) if d == "cached"));
    assert!(matches!(anime_get_step(None, Some("1".into())), AnimeGetStep::SelectOne(i) if i == "1"));
    assert!(matches!(anime_get_step(None, None), AnimeGetStep::SelectAll));
}

#[test]
fn anime_get_answers_and_caches() {
    let a = anime_get_one_answer("/anime?id=1".into(), Some("{}".into()));
    assert_eq!(a.reply.status, Http::Success);
    assert_eq!(a.reply.body, "{}");
    assert!(matches!(a.cache, CacheAction::Store { ref key, ref value } if key == "/anime?id=1" && value == "{}"));
    let b = anime_get_one_answer("/anime?id=1".into(), None);
    assert_eq!(b.reply.status.code(), 404);
    assert_eq!(b.reply.body, "No data Found");
    assert!(matches!(b.cache, CacheAction::Keep));
    let c = anime_get_all_answer("/anime".into(), "[]".into());
    assert_eq!(c.reply.status, Http::NotFound);
    assert_eq!(c.reply.body, "[]");
    assert!(matches!(c.cache, CacheAction::Keep));
    let d = anime_get_all_answer("/anime".into(), "[{}]".into());
    assert_eq!(d.reply.status, Http::Success);
    assert!(matches!(d.cache, CacheAction::Store { .. }));
}

#[test]
fn anime_post_patch_delete_answers() {
    let p = anime_post_answer(vec!["{\"id\":1}".into()]);
    assert_eq!(p.reply.status.code(), 201);
    assert_eq!(p.reply.body, "{\"id\":1}");
    assert!(matches!(p.cache, CacheAction::Delete { ref key } if key == "/anime"));
    let q = anime_post_answer(vec![]);
    assert_eq!(q.reply.status.code(), 406);
    assert_eq!(q.reply.body, "No Data found");
    let r = anime_post_answer(vec!["a".into(), "b".into()]);
    assert_eq!(r.reply.status.code(), 201);
    assert_eq!(r.reply.body, "No Data found");
    let u = anime_patch_answer("/anime?id=1".into(), None);
    assert_eq!(u.reply.status.code(), 404);
    assert!(matches!(u.cache, CacheAction::Store { ref value, .. } if value == "No Data found"));
    let v = anime_patch_answer("/anime?id=1".into(), Some("{}".into()));
    assert_eq!(v.reply.status.code(), 201);
    let d = anime_delete_answer("/anime?id=1".into(), true);
    assert_eq!(d.reply.body, "Data Deleted");
    assert!(matches!(d.cache, CacheAction::Delete { ref key } if key == "/anime?id=1"));
    let e = anime_delete_answer("/anime?id=1".into(), false);
    assert_eq!(e.reply.body, "No Data Found");
    assert!(matches!(e.cache, CacheAction::Keep));
}

#[test]
fn anime_base_is_a_copy() {
    let a = Anime {
        names: names("N", None, None),
        season: 1,
        episodes: 2,
        score_bits: 3,
        status: "s".into(),
        types: vec!["t".into()],
        platforms: vec![],
        genres: vec![],
        tags: vec![],
        trailer_urls: vec![],
        info_urls: vec![],
        video_urls: vec![],
        image_urls: vec!["i".into()],
    };
    assert_eq!(a.base(), a);
}

#[test]
fn import_counts_every_insert() {
    let mut t = ImportTally::new();
    t.record(false);
    t.record(true);
    t.record(false);
    assert_eq!(t.counter, 3);
    assert_eq!(t.error_counter, 1);
    assert_eq!(t.created(), 2);
    let r = t.reply(3);
    assert_eq!(r.status.code(), 201);
    assert_eq!(r.body, "3 records created");
    let r = t.reply(4);
    assert_eq!(r.status.code(), 500);
    assert_eq!(r.body, "");
}

#[test]
fn user_anime_relations() {
    let c = UserAnimeCreate::new(&"u1".to_string(), &"a9".to_string(), UserAnime { watched: 3, score_bits: 0, status: "watching".into() });
    assert_eq!(c.user_id, RecordId { tb: "user".into(), id: "u1".into() });
    assert_eq!(c.anime_id, RecordId { tb: "anime".into(), id: "a9".into() });
    assert_eq!(c.base.watched, 3);
    let u = UserAnimeUpdate::new(&"u1".to_string(), &"a9".to_string(), UserAnime { watched: 4, score_bits: 0, status: "done".into() });
    assert_eq!(u.anime_id.tb, "anime");
    assert_eq!(UserAnimeCreate::store_result(StoreOutcome::Stored("{}".into())), Ok("{}".to_string()));
    assert_eq!(UserAnimeCreate::store_result(StoreOutcome::NothingStored), Err("Failed to Create Record".to_string()));
    assert_eq!(UserAnimeUpdate::store_result(StoreOutcome::NothingStored), Err("Failed to Update Record".to_string()));
    assert_eq!(UserAnimeCreate::store_result(StoreOutcome::SerializeFailed), Err("Failed to Serialize Data".to_string()));
    assert_eq!(UserAnimeCreate::store_result(StoreOutcome::DatabaseError("boom".into())), Err("Database Error: boom".to_string()));
    let r = user_anime_reply(Err("x".into()), Http::Created);
    assert_eq!(r.status.code(), 406);
    assert_eq!(r.body, "x");
    let r = user_anime_reply(Ok("{}".into()), Http::Success);
    assert_eq!(r.status.code(), 200);
}

#[test]
fn missing_ids_are_bad_requests() {
    assert_eq!(require_id(Some("5".into())).ok(), Some("5".to_string()));
    let r = require_id(None).err().unwrap();
    assert_eq!((r.status.code(), r.body.as_str()), (400, "Bad Request"));
}

#[test]
fn relation_handler_replies_and_queries() {
    assert!(relate_user_anime_query().contains("RELATE $user_id->has_anime->$anime_id SET"));
    assert!(update_user_anime_query().starts_with("UPDATE (SELECT id FROM has_anime"));
    assert!(relate_user_manga_query().contains("created_at = time::now();"));
    assert_eq!(user_anime_get_reply(None).body, "No Data Found");
    assert_eq!(user_anime_post_reply(Ok("{}".into())).status.code(), 201);
    assert_eq!(user_anime_patch_reply(Ok("{}".into())).status.code(), 200);
    assert_eq!(user_anime_post_reply(Err("e".into())).status.code(), 406);
    assert_eq!(user_anime_delete_reply(false).status.code(), 404);
    assert_eq!(user_manga_get_reply(Some("x".into())).status.code(), 200);
    let w = user_manga_write_reply(None);
    assert_eq!((w.status.code(), w.body.as_str()), (406, "No Data Created"));
    assert_eq!(user_manga_write_reply(Some("x".into())).status.code(), 201);
    assert_eq!(user_manga_delete_reply(true).body, "Data Deleted");
    let s = anime_search_reply(false, "[]".into());
    assert_eq!((s.status.code(), s.body.as_str()), (404, "No Data Found"));
    let s = manga_search_reply(false, "[]".into());
    assert_eq!((s.status.code(), s.body.as_str()), (404, "Not Found"));
    assert_eq!(manga_search_reply(true, "[1]".into()).body, "[1]");
}

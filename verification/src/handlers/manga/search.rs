//! Searching the stored manga by name.
use vstd::prelude::*;

use crate::handlers::anime::search::{limited, SearchForm};
use crate::handlers::manga::main::MangaNames;
use crate::handlers::reply::{listing_reply, Reply, Status};
use crate::records::RecordId;
use crate::text::{contains_seq, contains_text};

verus! {

/// The id and the names of a stored manga.
#[derive(Debug, PartialEq, Eq)]
pub struct MangaSearch {
    pub id: RecordId,
    pub names: MangaNames,
}

impl Clone for MangaSearch {
    fn clone(&self) -> (r: Self)
        ensures
            r == *self,
    {
        MangaSearch { id: self.id.clone(), names: self.names.clone() }
    }
}

/// `GET /manga/search`: the matching manga as JSON with `Success` when any
/// manga is stored, `NotFound` with "Not Found" when none is.
pub fn manga_search_reply(any_stored: bool, json: String) -> (r: Reply)
    ensures
        r.header is None,
        any_stored ==> r.status == Status::Success && r.body@ == json@,
        !any_stored ==> r.status == Status::NotFound && r.body@ == "Not Found"@,
{
    listing_reply(any_stored, json, "Not Found")
}

/// The search text occurs in the manga's original, English or Japanese
/// name.
pub open spec fn manga_matches(m: MangaSearch, q: Seq<char>) -> bool {
    ||| contains_seq(m.names.original@, q)
    ||| contains_seq(m.names.en@, q)
    ||| contains_seq(m.names.jp@, q)
}

/// The manga that a search returns: those whose names contain the text,
/// in stored order, at most `l` of them when `l` is not 0.
pub open spec fn manga_search_result(records: Seq<MangaSearch>, form: SearchForm) -> Seq<
    MangaSearch,
> {
    limited(records.filter(|m: MangaSearch| manga_matches(m, form.q@)), form.l)
}

fn manga_matches_exec(m: &MangaSearch, q: &str) -> (r: bool)
    ensures
        r == manga_matches(*m, q@),
{
    contains_text(m.names.original.as_str(), q) || contains_text(m.names.en.as_str(), q)
        || contains_text(m.names.jp.as_str(), q)
}

/// The stored manga that match a search (`GET /manga/search`).
pub fn filter_manga_search(records: &Vec<MangaSearch>, form: &SearchForm) -> (r: Vec<MangaSearch>)
    ensures
        r@ == manga_search_result(records@, *form),
{
    let ghost pred = |m: MangaSearch| manga_matches(m, form.q@);
    let mut r: Vec<MangaSearch> = Vec::new();
    let mut i: usize = 0;
    while i < records.len()
        invariant
            i <= records.len(),
            pred == (|m: MangaSearch| manga_matches(m, form.q@)),
            r@ == records@.take(i as int).filter(pred),
        decreases records.len() - i,
    {
        proof {
            reveal_with_fuel(Seq::<MangaSearch>::filter, 1);
            assert(records@.take(i + 1).drop_last() =~= records@.take(i as int));
        }
        if manga_matches_exec(&records[i], form.q.as_str()) {
            r.push(records[i].clone());
        }
        i += 1;
    }
    assert(records@.take(records.len() as int) =~= records@);
    if form.l != 0 && form.l < r.len() {
        r.truncate(form.l);
    }
    r
}

} // verus!

//! Searching the stored anime by name: the search form read from the query
//! parameters, and which records a search returns.
use vstd::prelude::*;

use crate::handlers::anime::main::AnimeNames;
use crate::handlers::reply::{listing_reply, Reply, Status};
use crate::records::RecordId;
use crate::text::{
    contains_seq, contains_text, occurs_at, owned, parse_usize, parse_usize_spec, same_text,
};

verus! {

/// The id and the names of a stored anime.
#[derive(Debug, PartialEq, Eq)]
pub struct AnimeSearch {
    pub id: RecordId,
    pub names: AnimeNames,
}

impl Clone for AnimeSearch {
    fn clone(&self) -> (r: Self)
        ensures
            r == *self,
    {
        AnimeSearch { id: self.id.clone(), names: self.names.clone() }
    }
}

/// A search: the text to look for, and the most results to return
/// (0 for no limit).
#[derive(Debug, PartialEq, Eq)]
pub struct SearchForm {
    pub q: String,
    pub l: usize,
}

/// The value of the last parameter named `key`, if any.
pub open spec fn last_value(pairs: Seq<(String, String)>, key: Seq<char>) -> Option<Seq<char>>
    decreases pairs.len(),
{
    if pairs.len() == 0 {
        None
    } else if pairs.last().0@ == key {
        Some(pairs.last().1@)
    } else {
        last_value(pairs.drop_last(), key)
    }
}

/// The search text: the last `q` parameter, or empty.
pub open spec fn form_text(pairs: Seq<(String, String)>) -> Seq<char> {
    match last_value(pairs, "q"@) {
        Some(v) => v,
        None => Seq::empty(),
    }
}

/// The result limit: the last `l` parameter read as a number, or 0 when
/// there is none or it is no number.
pub open spec fn form_limit(pairs: Seq<(String, String)>) -> usize {
    match last_value(pairs, "l"@) {
        Some(v) => match parse_usize_spec(v) {
            Some(n) => n,
            None => 0,
        },
        None => 0,
    }
}

/// The search form that the query parameters give: `q` is the text, `l`
/// the limit; other parameters are ignored, and a later parameter of the
/// same name wins.
pub fn search_form_from_pairs(pairs: &Vec<(String, String)>) -> (r: SearchForm)
    ensures
        r.q@ == form_text(pairs@),
        r.l == form_limit(pairs@),
{
    let mut q = String::new();
    let mut l: usize = 0;
    let mut i: usize = 0;
    while i < pairs.len()
        invariant
            i <= pairs.len(),
            q@ == form_text(pairs@.take(i as int)),
            l == form_limit(pairs@.take(i as int)),
        decreases pairs.len() - i,
    {
        let key = &pairs[i].0;
        let value = &pairs[i].1;
        assert(pairs@.take(i + 1).drop_last() =~= pairs@.take(i as int));
        assert(pairs@.take(i + 1).last() == pairs@[i as int]);
        proof {
            reveal_strlit("q");
            reveal_strlit("l");
            assert("q"@[0] != "l"@[0]);
        }
        if same_text(key.as_str(), "q") {
            q = owned(value.as_str());
        } else if same_text(key.as_str(), "l") {
            l = match parse_usize(value.as_str()) {
                Some(n) => n,
                None => 0,
            };
        }
        i += 1;
    }
    assert(pairs@.take(pairs.len() as int) =~= pairs@);
    SearchForm { q, l }
}

/// `GET /anime/search`: the matching anime as JSON with `Success` when any
/// anime is stored, `NotFound` with "No Data Found" when none is.
pub fn anime_search_reply(any_stored: bool, json: String) -> (r: Reply)
    ensures
        r.header is None,
        any_stored ==> r.status == Status::Success && r.body@ == json@,
        !any_stored ==> r.status == Status::NotFound && r.body@ == "No Data Found"@,
{
    listing_reply(any_stored, json, "No Data Found")
}

/// The search text occurs in the anime's original, English or Japanese
/// name.
pub open spec fn anime_matches(a: AnimeSearch, q: Seq<char>) -> bool {
    ||| contains_seq(a.names.original@, q)
    ||| (a.names.en matches Some(en) && contains_seq(en@, q))
    ||| (a.names.jp matches Some(jp) && contains_seq(jp@, q))
}

/// The first `l` entries of `s`, or all of them when `l` is 0 or at least
/// their number.
pub open spec fn limited<T>(s: Seq<T>, l: usize) -> Seq<T> {
    if l != 0 && l < s.len() {
        s.take(l as int)
    } else {
        s
    }
}

/// The anime that a search returns: those whose names contain the text,
/// in stored order, at most `l` of them when `l` is not 0.
pub open spec fn anime_search_result(records: Seq<AnimeSearch>, form: SearchForm) -> Seq<
    AnimeSearch,
> {
    limited(records.filter(|a: AnimeSearch| anime_matches(a, form.q@)), form.l)
}

fn anime_matches_exec(a: &AnimeSearch, q: &str) -> (r: bool)
    ensures
        r == anime_matches(*a, q@),
{
    if contains_text(a.names.original.as_str(), q) {
        return true;
    }
    let en = match &a.names.en {
        Some(en) => contains_text(en.as_str(), q),
        None => false,
    };
    let jp = match &a.names.jp {
        Some(jp) => contains_text(jp.as_str(), q),
        None => false,
    };
    en || jp
}

/// The stored anime that match a search (`GET /anime/search`).
pub fn filter_anime_search(records: &Vec<AnimeSearch>, form: &SearchForm) -> (r: Vec<AnimeSearch>)
    ensures
        r@ == anime_search_result(records@, *form),
{
    let ghost pred = |a: AnimeSearch| anime_matches(a, form.q@);
    let mut r: Vec<AnimeSearch> = Vec::new();
    let mut i: usize = 0;
    while i < records.len()
        invariant
            i <= records.len(),
            pred == (|a: AnimeSearch| anime_matches(a, form.q@)),
            r@ == records@.take(i as int).filter(pred),
        decreases records.len() - i,
    {
        proof {
            reveal_with_fuel(Seq::<AnimeSearch>::filter, 1);
            assert(records@.take(i + 1).drop_last() =~= records@.take(i as int));
        }
        if anime_matches_exec(&records[i], form.q.as_str()) {
            r.push(records[i].clone());
        }
        i += 1;
    }
    assert(records@.take(records.len() as int) =~= records@);
    if form.l != 0 && form.l < r.len() {
        r.truncate(form.l);
    }
    r
}

} // verus!

verus! {

/// Every anime that a search returns has the search text in one of its
/// names.
pub proof fn lemma_search_results_match(records: Seq<AnimeSearch>, form: SearchForm, i: int)
    requires
        0 <= i < anime_search_result(records, form).len(),
    ensures
        anime_matches(anime_search_result(records, form)[i], form.q@),
{
    let pred = |a: AnimeSearch| anime_matches(a, form.q@);
    let all = records.filter(pred);
    all.lemma_filter_len(pred);
    records.lemma_filter_pred(pred, i);
}

/// A search returns no more anime than are stored, and no more than its
/// limit when it has one.
pub proof fn lemma_search_respects_limit(records: Seq<AnimeSearch>, form: SearchForm)
    ensures
        anime_search_result(records, form).len() <= records.len(),
        form.l != 0 ==> anime_search_result(records, form).len() <= form.l,
{
    let pred = |a: AnimeSearch| anime_matches(a, form.q@);
    records.lemma_filter_len(pred);
}

/// Without a limit, a search returns every stored anime whose names hold
/// the search text.
pub proof fn lemma_search_finds_every_match(records: Seq<AnimeSearch>, form: SearchForm, i: int)
    requires
        form.l == 0,
        0 <= i < records.len(),
        anime_matches(records[i], form.q@),
    ensures
        anime_search_result(records, form).contains(records[i]),
{
    let pred = |a: AnimeSearch| anime_matches(a, form.q@);
    records.lemma_filter_contains(pred, i);
}

proof fn lemma_filter_all<T>(s: Seq<T>, pred: spec_fn(T) -> bool)
    requires
        forall|i: int| 0 <= i < s.len() ==> pred(#[trigger] s[i]),
    ensures
        s.filter(pred) == s,
    decreases s.len(),
{
    reveal(Seq::filter);
    if s.len() > 0 {
        lemma_filter_all(s.drop_last(), pred);
        assert(pred(s[s.len() - 1]));
        assert(s.drop_last().push(s.last()) =~= s);
    }
}

/// A search for the empty text without a limit returns every stored
/// anime, in stored order.
pub proof fn lemma_empty_search_returns_all(records: Seq<AnimeSearch>, form: SearchForm)
    requires
        form.q@.len() == 0,
        form.l == 0,
    ensures
        anime_search_result(records, form) == records,
{
    let pred = |a: AnimeSearch| anime_matches(a, form.q@);
    assert forall|i: int| 0 <= i < records.len() implies pred(#[trigger] records[i]) by {
        assert(records[i].names.original@.subrange(0, 0) =~= form.q@);
        assert(occurs_at(records[i].names.original@, form.q@, 0));
    }
    lemma_filter_all(records, pred);
}

} // verus!

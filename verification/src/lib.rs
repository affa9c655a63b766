//! A service that keeps anime, manga and users, and what they have watched
//! and read: the records it stores, and the decisions of its request
//! handlers, verified.
use vstd::prelude::*;

pub mod constructor;
pub mod handlers;
pub mod middleware;
pub mod modules;
pub mod records;
pub mod text;

use crate::text::{chars_of, contains_seq, find_chars, occurs_at, string_of};

verus! {

/// `i` is where `needle` first occurs in `hay`.
pub open spec fn first_occurrence(hay: Seq<char>, needle: Seq<char>, i: int) -> bool {
    occurs_at(hay, needle, i) && forall|j: int| 0 <= j < i ==> !occurs_at(hay, needle, j)
}

/// The text after the first character of the first occurrence of
/// `split_chars` in `data`: `"anime:1234"` split at `":"` gives `"1234"`.
/// `data` must hold `split_chars`, and the character where it first occurs
/// must be a one-byte (ASCII) character.
pub fn splitted_data_at(data: String, split_chars: &str) -> (r: String)
    requires
        contains_seq(data@, split_chars@),
        split_chars@.len() > 0 ==> split_chars@[0] <= '\x7f',
        split_chars@.len() == 0 ==> data@.len() > 0 && data@[0] <= '\x7f',
    ensures
        exists|i: int| first_occurrence(data@, split_chars@, i) && r@ == data@.skip(i + 1),
{
    let hay = chars_of(data.as_str());
    let needle = chars_of(split_chars);
    match find_chars(&hay, &needle) {
        Some(i) => {
            let mut rest: Vec<char> = Vec::new();
            if needle.len() == 0 {
                assert(i == 0) by {
                    assert(occurs_at(hay@, needle@, 0)) by {
                        assert(hay@.subrange(0, 0) =~= needle@);
                    }
                }
            } else {
                assert(hay@[i as int] == hay@.subrange(i as int, i + needle.len())[0]);
            }
            assert(i < hay.len());
            let mut k: usize = i + 1;
            while k < hay.len()
                invariant
                    i < hay.len(),
                    i + 1 <= k <= hay.len(),
                    rest@ == hay@.subrange(i + 1, k as int),
                decreases hay.len() - k,
            {
                rest.push(hay[k]);
                assert(hay@.subrange(i + 1, k + 1) =~= hay@.subrange(i + 1, k as int).push(hay@[k as int]));
                k += 1;
            }
            assert(rest@ =~= data@.skip(i + 1));
            assert(first_occurrence(data@, split_chars@, i as int));
            string_of(&rest)
        },
        None => {
            proof {
                assert(false);
            }
            String::new()
        },
    }
}

} // verus!

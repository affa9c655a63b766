//! Entries of the response cache: which key a request is cached under,
//! and for how long.
use vstd::prelude::*;

use crate::text::owned;

verus! {

/// The seconds a cached response stays valid.
pub const CACHE_SECONDS: usize = 3600;

/// The cache entry of one request, keyed by the request's URI.
#[derive(Debug)]
pub struct Caching {
    pub uri: String,
    pub time: usize,
}

impl Caching {
    /// The entry for `uri`, valid for an hour.
    pub fn new(uri: String) -> (r: Self)
        ensures
            r.uri@ == uri@,
            r.time == CACHE_SECONDS,
    {
        Caching { uri, time: CACHE_SECONDS }
    }

    /// The key under which the entry is stored: the URI itself.
    pub fn get_key(&self) -> (r: String)
        ensures
            r@ == self.uri@,
    {
        owned(self.uri.as_str())
    }
}

/// What a handler does to the cache after it has answered.
pub enum CacheAction {
    /// Leave the cache as it is.
    Keep,
    /// Store `value` under `key`.
    Store { key: String, value: String },
    /// Remove the entry under `key`.
    Delete { key: String },
}

} // verus!

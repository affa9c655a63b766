//! Parts of the anime record that the live connection uses.
use vstd::prelude::*;

verus! {

/// An image of an anime: its URL and where it is hosted (none for an
/// outside host, "upload" for one hosted here).
#[derive(Debug, Clone, PartialEq, Eq)]
pub struct ImageUrl {
    pub url: String,
    pub source: Option<String>,
}

/// The names of an anime, each of which may be missing.
#[derive(Debug, Clone, PartialEq, Eq)]
pub struct Names {
    pub original: Option<String>,
    pub en: Option<String>,
    pub jp: Option<String>,
}

} // verus!

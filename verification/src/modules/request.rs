//! The address of a request to an outside catalogue.
use vstd::prelude::*;

use crate::text::concat;

verus! {

/// Which catalogue a request goes to.
#[derive(Debug, Clone, Copy, PartialEq, Eq, Structural)]
pub enum Uri {
    MangaUri,
    AnimeUri,
}

/// The name of a catalogue, as its debug form writes it.
pub open spec fn uri_label(uri: Uri) -> Seq<char> {
    match uri {
        Uri::MangaUri => "MangaUri"@,
        Uri::AnimeUri => "AnimeUri"@,
    }
}

/// The address requested for `req` at a catalogue: the catalogue's name
/// followed by `req`.
pub fn request_url(uri: Uri, req: &str) -> (r: String)
    ensures
        r@ == uri_label(uri) + req@,
{
    match uri {
        Uri::MangaUri => concat("MangaUri", req),
        Uri::AnimeUri => concat("AnimeUri", req),
    }
}

} // verus!

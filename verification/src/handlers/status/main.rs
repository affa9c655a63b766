//! The service's health report (`GET /status/`).
use vstd::prelude::*;

use crate::text::owned;

verus! {

/// The health report's text for the database's and the cache's state.
pub open spec fn status_text(surreal_connected: bool, redis_connected: bool) -> Seq<char> {
    (if surreal_connected {
        "Surreal is connected"@
    } else {
        "Surreal is not connected"@
    }) + (if redis_connected {
        "\nRedis is connected"@
    } else {
        "\nRedis is not connected"@
    })
}

/// The health report: one line on the database, one on the cache.
pub fn status_report(surreal_connected: bool, redis_connected: bool) -> (r: String)
    ensures
        r@ == status_text(surreal_connected, redis_connected),
{
    let mut r = if surreal_connected {
        owned("Surreal is connected")
    } else {
        owned("Surreal is not connected")
    };
    if redis_connected {
        r.append("\nRedis is connected");
    } else {
        r.append("\nRedis is not connected");
    }
    r
}

} // verus!

//! How the library refers to stored records and to points in time.
use vstd::prelude::*;

use crate::text::owned;

verus! {

/// A reference to a stored record: the table and the record's key, as the
/// database writes them (`table:key`).
#[derive(Debug, PartialEq, Eq)]
pub struct RecordId {
    pub tb: String,
    pub id: String,
}

impl Clone for RecordId {
    fn clone(&self) -> (r: Self)
        ensures
            r == *self,
    {
        RecordId { tb: self.tb.clone(), id: self.id.clone() }
    }
}

impl RecordId {
    /// The reference to record `id` of table `tb`.
    pub fn new(tb: &str, id: &str) -> (r: RecordId)
        ensures
            r.tb@ == tb@,
            r.id@ == id@,
    {
        RecordId { tb: owned(tb), id: owned(id) }
    }
}

/// A point in time: seconds since the Unix epoch and the nanoseconds past
/// that second.
#[derive(Debug, Clone, Copy, PartialEq, Eq, Structural)]
pub struct Timestamp {
    pub secs: i64,
    pub nanos: u32,
}

/// `t` is a time that the clock gave: at or after the Unix epoch, with
/// fewer than a second's worth of nanoseconds past its second. Outside this
/// module the predicate is opaque, so the only way to come by a timestamp
/// that satisfies it is to read the clock with [`now`].
pub closed spec fn clock_reading(t: Timestamp) -> bool {
    t.secs >= 0 && t.nanos < 1_000_000_000
}

/// A clock reading is a real point in time: it is not before the Unix
/// epoch, and its nanoseconds stay below one second.
pub proof fn lemma_clock_reading_is_a_time(t: Timestamp)
    requires
        clock_reading(t),
    ensures
        t.secs >= 0,
        t.nanos < 1_000_000_000,
{
}

/// The current time (`chrono::Utc::now`), as seconds since the Unix epoch
/// and the nanoseconds past that second. The contract states what holds of
/// every reading, as chrono builds it from the system clock's duration
/// since the epoch (it panics on a clock set before the epoch): the
/// seconds are not negative and the nanoseconds stay below one second.
/// Which time it is depends on the clock and is left unsaid.
#[verifier::external_body]
pub(crate) fn now() -> (r: Timestamp)
    ensures
        clock_reading(r),
{
    let t = chrono::Utc::now();
    Timestamp { secs: t.timestamp(), nanos: t.timestamp_subsec_nanos() }
}

} // verus!

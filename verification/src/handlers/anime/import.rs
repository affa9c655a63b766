//! Importing many anime at once (`POST /anime/import`): the count of
//! records tried and of those that failed, and the answer it gives.
use vstd::prelude::*;

use crate::handlers::reply::{records_created_text, Reply, Status};
use crate::text::decimal;

verus! {

/// How many inserts an import has tried, and how many of them failed.
#[derive(Debug, Clone, Copy, PartialEq, Eq, Structural)]
pub struct ImportTally {
    pub counter: usize,
    pub error_counter: usize,
}

impl ImportTally {
    /// The tally keeps its failures among its tries.
    pub open spec fn wf(&self) -> bool {
        self.error_counter <= self.counter
    }

    /// The tally after one more insert, a failed one when `failed` holds.
    pub open spec fn after_record(self, failed: bool) -> ImportTally {
        ImportTally {
            counter: (self.counter + 1) as usize,
            error_counter: if failed {
                (self.error_counter + 1) as usize
            } else {
                self.error_counter
            },
        }
    }

    /// A tally before any insert.
    pub fn new() -> (r: Self)
        ensures
            r.counter == 0,
            r.error_counter == 0,
            r.wf(),
    {
        ImportTally { counter: 0, error_counter: 0 }
    }

    /// Counts one more insert, a failed one when `failed` holds.
    pub fn record(&mut self, failed: bool)
        requires
            old(self).wf(),
            old(self).counter < usize::MAX,
        ensures
            final(self).wf(),
            *final(self) == old(self).after_record(failed),
    {
        if failed {
            self.error_counter += 1;
        }
        self.counter += 1;
    }

    /// How many inserts succeeded.
    pub fn created(&self) -> (r: usize)
        requires
            self.wf(),
        ensures
            r == self.counter - self.error_counter,
    {
        self.counter - self.error_counter
    }

    /// The answer once `submitted` anime were sent: `Created` with
    /// "<n> records created" when every one of them was tried, an empty
    /// `InternalServerError` otherwise.
    pub fn reply(&self, submitted: usize) -> (r: Reply)
        ensures
            r.header is None,
            self.counter == submitted ==> r.status == Status::Created && r.body@ == decimal(
                self.counter as nat,
            ) + " records created"@,
            self.counter != submitted ==> r.status == Status::InternalServerError && r.body@.len()
                == 0,
    {
        if self.counter == submitted {
            Reply {
                status: Status::Created,
                body: records_created_text(self.counter as u64),
                header: None,
            }
        } else {
            Reply { status: Status::InternalServerError, body: String::new(), header: None }
        }
    }
}

/// The tally after inserts with the given outcomes (`true` for a failure),
/// from an empty one.
pub open spec fn replay(outcomes: Seq<bool>) -> ImportTally
    decreases outcomes.len(),
{
    if outcomes.len() == 0 {
        ImportTally { counter: 0, error_counter: 0 }
    } else {
        replay(outcomes.drop_last()).after_record(outcomes.last())
    }
}

/// The number of failures among the outcomes.
pub open spec fn failures(outcomes: Seq<bool>) -> nat
    decreases outcomes.len(),
{
    if outcomes.len() == 0 {
        0
    } else {
        failures(outcomes.drop_last()) + if outcomes.last() {
            1nat
        } else {
            0nat
        }
    }
}

/// An import counts every insert it tries, whether it failed or not: after
/// one insert for each of the submitted anime the tally's count equals
/// their number, so the import always answers `Created`; its failures are
/// the failed inserts.
pub proof fn lemma_import_counts_every_insert(outcomes: Seq<bool>)
    requires
        outcomes.len() <= usize::MAX,
    ensures
        replay(outcomes).counter == outcomes.len(),
        replay(outcomes).error_counter == failures(outcomes),
        replay(outcomes).wf(),
    decreases outcomes.len(),
{
    if outcomes.len() > 0 {
        lemma_import_counts_every_insert(outcomes.drop_last());
    }
}

} // verus!

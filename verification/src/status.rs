//! Harvest watermark: how far the incremental harvest has progressed.
//!
//! The relational store holds a singleton row whose single column is the
//! timestamp up to which the external source's changes have been fully
//! applied to the local mirror. The row is seeded once at provisioning time;
//! its absence at runtime is a deployment defect, not a recoverable state.

use vstd::prelude::*;

verus! {

/// A point in time, as microseconds since the Unix epoch.
pub type Timestamp = i64;

/// Sync progress, as recorded in the relational store.
#[derive(Clone, Copy, Debug, PartialEq, Eq, Structural)]
pub struct SyncStatus {
    /// The inclusive upper bound of external-source changes fully applied to
    /// the local mirror.
    pub harvested_until: Timestamp,
}

/// Failure to read the watermark row.
#[derive(Clone, Copy, Debug, PartialEq, Eq, Structural)]
pub enum SyncStatusError {
    /// The singleton row is absent. It must be seeded during provisioning,
    /// so this is a deployment defect, distinct from "not yet synced".
    MissingRow,
    /// More than one row exists where the schema allows exactly one.
    MultipleRows,
}

impl SyncStatus {
    /// What [`Self::from_rows`] returns for each possible row set.
    pub open spec fn spec_from_rows(rows: Seq<Timestamp>) -> Result<SyncStatus, SyncStatusError> {
        if rows.len() == 0 {
            Err(SyncStatusError::MissingRow)
        } else if rows.len() > 1 {
            Err(SyncStatusError::MultipleRows)
        } else {
            Ok(SyncStatus { harvested_until: rows[0] })
        }
    }

    /// Reads the watermark out of the rows the singleton query returned:
    /// exactly one row is expected, anything else is fatal.
    pub fn from_rows(rows: &Vec<Timestamp>) -> (r: Result<Self, SyncStatusError>)
        ensures
            r == Self::spec_from_rows(rows@),
    {
        if rows.len() == 0 {
            Err(SyncStatusError::MissingRow)
        } else if rows.len() > 1 {
            Err(SyncStatusError::MultipleRows)
        } else {
            Ok(SyncStatus { harvested_until: rows[0] })
        }
    }
}

/// State machine of the watermark table.
///
/// The real table is external; this type is its model, holding the timestamp
/// column of each row. The surrounding store layer performs each operation
/// below as one durable round trip against the relational store; what the
/// operations mean is decided here.
pub struct SyncStatusTable {
    pub rows: Vec<Timestamp>,
}

impl SyncStatusTable {
    /// A freshly provisioned table: the singleton row is seeded with the
    /// given initial watermark.
    pub fn provision(initial: Timestamp) -> (r: Self)
        ensures
            r.rows@ =~= seq![initial],
    {
        let mut rows: Vec<Timestamp> = Vec::new();
        rows.push(initial);
        SyncStatusTable { rows }
    }

    /// Reads the singleton row.
    pub fn fetch(&self) -> (r: Result<SyncStatus, SyncStatusError>)
        ensures
            r == SyncStatus::spec_from_rows(self.rows@),
    {
        SyncStatus::from_rows(&self.rows)
    }

    /// Overwrites the stored watermark unconditionally, in every row there
    /// is. No comparison against the previous value is made: monotonicity is
    /// a contract the harvesting orchestrator must uphold, not an invariant
    /// enforced here.
    pub fn update_harvested_until(&mut self, new_value: Timestamp)
        ensures
            final(self).rows@ == old(self).rows@.map_values(|t: Timestamp| new_value),
    {
        let n = self.rows.len();
        let mut i: usize = 0;
        while i < n
            invariant
                n == self.rows.len(),
                i <= n,
                forall|j: int| 0 <= j < i ==> self.rows@[j] == new_value,
                forall|j: int| i <= j < n ==> self.rows@[j] == old(self).rows@[j],
            decreases n - i,
        {
            self.rows.set(i, new_value);
            i += 1;
        }
        proof {
            assert(self.rows@ =~= old(self).rows@.map_values(|t: Timestamp| new_value));
        }
    }
}

/// Advancing the watermark and then fetching yields exactly the value
/// written: on a well-formed (singleton) table, an overwrite with `t`
/// followed by a read returns `t`.
pub proof fn lemma_watermark_round_trip(before: Seq<Timestamp>, new_value: Timestamp)
    requires
        before.len() == 1,
    ensures
        SyncStatus::spec_from_rows(before.map_values(|t: Timestamp| new_value)) == Ok::<
            SyncStatus,
            SyncStatusError,
        >(SyncStatus { harvested_until: new_value }),
{
}

} // verus!

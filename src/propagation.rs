use vstd::prelude::*;
use crate::model::ChangeStatus;

verus! {

/// Follows one submitted change until the provider reports it in sync.
///
/// The tracker starts `Pending`. Each status the provider reports is one
/// query; `InSync` is terminal and no further query is asked for.
#[derive(Debug, Clone)]
pub struct PropagationTracker {
    pub change_id: String,
    pub queries: u64,
    pub status: ChangeStatus,
}

impl PropagationTracker {
    /// A tracker for the change `change_id`, before any query.
    pub fn new(change_id: String) -> (r: PropagationTracker)
        ensures
            r.change_id == change_id,
            r.queries == 0,
            r.status == ChangeStatus::Pending,
    {
        PropagationTracker { change_id, queries: 0, status: ChangeStatus::Pending }
    }

    /// Whether the change has reached its terminal state.
    pub fn is_in_sync(&self) -> (r: bool)
        ensures
            r == (self.status == ChangeStatus::InSync),
    {
        self.status == ChangeStatus::InSync
    }

    /// Records the answer to one status query. Returns whether the change is
    /// now in sync, that is whether the tracker is done.
    pub fn record_status(&mut self, status: ChangeStatus) -> (done: bool)
        requires
            old(self).status == ChangeStatus::Pending,
        ensures
            final(self).change_id == old(self).change_id,
            final(self).queries == (if old(self).queries < u64::MAX {
                old(self).queries + 1
            } else {
                old(self).queries as int
            }),
            final(self).status == status,
            done == (status == ChangeStatus::InSync),
    {
        self.queries = self.queries.saturating_add(1);
        self.status = status;
        status == ChangeStatus::InSync
    }
}

/// Whether a status sequence reaches `InSync` at some query.
pub open spec fn reaches_in_sync(statuses: Seq<ChangeStatus>) -> bool {
    exists|i: int| 0 <= i < statuses.len() && statuses[i] == ChangeStatus::InSync
}

/// Runs a tracker against the statuses that successive queries return, and
/// gives the number of queries it made before it finished, or `None` where
/// the sequence runs out first (the tracker would still be waiting).
pub fn queries_until_in_sync(change_id: String, statuses: &Vec<ChangeStatus>) -> (r: Option<u64>)
    requires
        statuses.len() < u64::MAX,
    ensures
        r is Some <==> reaches_in_sync(statuses@),
        r matches Some(n) ==> {
            &&& 1 <= n <= statuses.len()
            &&& statuses@[n - 1] == ChangeStatus::InSync
            &&& forall|j: int| 0 <= j < n - 1 ==> statuses@[j] == ChangeStatus::Pending
        },
{
    let mut tracker = PropagationTracker::new(change_id);
    let mut i: usize = 0;
    while i < statuses.len()
        invariant
            i <= statuses.len() < u64::MAX,
            tracker.queries == i,
            tracker.status == ChangeStatus::Pending,
            forall|j: int| 0 <= j < i ==> statuses@[j] == ChangeStatus::Pending,
        decreases statuses.len() - i,
    {
        let status = statuses[i];
        if tracker.record_status(status) {
            return Some(tracker.queries);
        }
        i = i + 1;
    }
    None
}

} // verus!

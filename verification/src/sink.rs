//! A model of the ordered, append-only log behind the append sink.
//!
//! The real log lives in an external store reached over a serialized
//! connection; the boundary code drives that connection. This model states
//! the contract the pipeline relies on: each append adds exactly one entry
//! at the tail and returns a fresh, monotonically increasing entry
//! identifier. The log is append-only, never upsert: appending the same
//! record twice yields two distinct entries under two distinct identifiers.

use vstd::prelude::*;

use crate::record::Record;

verus! {

/// An append-only log of records with monotonically increasing entry
/// identifiers.
pub struct AppendLog {
    /// The entries, in append order.
    pub entries: Vec<Record>,
    /// The identifier the next append will return.
    pub next_id: u64,
}

/// `post` is `pre` with `r` appended at the tail under identifier `id`.
pub open spec fn appended(pre: AppendLog, post: AppendLog, r: Record, id: u64) -> bool {
    &&& id == pre.next_id
    &&& post.next_id == pre.next_id + 1
    &&& post.entries@ == pre.entries@.push(r)
}

impl AppendLog {
    /// An empty log.
    pub fn new() -> (l: AppendLog)
        ensures
            l.entries@.len() == 0,
            l.next_id == 0,
    {
        AppendLog { entries: Vec::new(), next_id: 0 }
    }

    /// Appends one record at the tail and returns the new entry's
    /// identifier.
    pub fn append(&mut self, r: Record) -> (id: u64)
        requires
            old(self).next_id < u64::MAX,
        ensures
            appended(*old(self), *final(self), r, id),
    {
        let id = self.next_id;
        self.next_id = self.next_id + 1;
        self.entries.push(r);
        id
    }
}

/// Appending the same record twice produces two distinct entries under two
/// distinct identifiers: no append is ever coalesced with an earlier one.
pub proof fn lemma_append_twice_distinct(
    l0: AppendLog,
    l1: AppendLog,
    l2: AppendLog,
    r: Record,
    id1: u64,
    id2: u64,
)
    requires
        appended(l0, l1, r, id1),
        appended(l1, l2, r, id2),
    ensures
        id1 != id2,
        l2.entries@.len() == l0.entries@.len() + 2,
        l2.entries@[l0.entries@.len() as int] == r,
        l2.entries@[l0.entries@.len() as int + 1] == r,
{
}

} // verus!

//! How far a record in memory is ahead of the persistent store.

use vstd::prelude::*;

verus! {

/// The relation of an in-memory record to its stored row.
#[derive(Debug, PartialEq, Eq, Clone, Copy, Structural)]
pub enum SyncState {
    /// The record differs from its stored row.
    Dirty,
    /// The record has no stored row yet.
    New,
    /// The record equals its stored row.
    Clean,
    /// The stored row is to be removed.
    Deleted,
}

impl Default for SyncState {
    fn default() -> (r: Self)
        ensures
            r == SyncState::New,
    {
        SyncState::New
    }
}

} // verus!

//! The slot that holds the current snapshot, if one has been loaded.

use crate::error::QueryError;
use crate::snapshot::Snapshot;
use vstd::prelude::*;

verus! {

/// The place of the current snapshot. It starts empty and holds a snapshot
/// from the first `replace` on. A reader borrows the snapshot whole; the one
/// writer swaps it whole.
#[derive(Debug, PartialEq, Eq)]
pub struct Container {
    slot: Option<Snapshot>,
}

impl Container {
    /// The snapshot in the slot, if any.
    pub closed spec fn view(&self) -> Option<Snapshot> {
        self.slot
    }

    /// An empty container.
    pub fn new() -> (container: Container)
        ensures
            container@ is None,
    {
        Container { slot: None }
    }

    /// Puts `snapshot` in the slot in place of what was there.
    pub fn replace(&mut self, snapshot: Snapshot)
        ensures
            final(self)@ == Some(snapshot),
    {
        self.slot = Some(snapshot);
    }

    /// Whether a snapshot has been loaded.
    pub fn is_loaded(&self) -> (loaded: bool)
        ensures
            loaded == (self@ is Some),
    {
        self.slot.is_some()
    }

    /// The current snapshot, or `NotLoaded` while the slot is empty.
    pub fn acquire_read(&self) -> (view: Result<&Snapshot, QueryError>)
        ensures
            match self@ {
                Some(snapshot) => view == Ok::<&Snapshot, QueryError>(&snapshot),
                None => view == Err::<&Snapshot, QueryError>(QueryError::NotLoaded),
            },
    {
        match &self.slot {
            Some(snapshot) => Ok(snapshot),
            None => Err(QueryError::NotLoaded),
        }
    }
}

} // verus!

use vstd::prelude::*;

use crate::paths::DirKind;

verus! {

/// What is done to each of the three directories.
#[derive(Clone, Copy, Debug, PartialEq, Eq, Structural)]
pub enum Operation {
    Create,
    Remove,
}

/// Whether a directory must be acted on: one that is missing is created, one
/// that is present is removed; otherwise there is nothing to do.
pub open spec fn attempt_needed(op: Operation, exists: bool) -> bool {
    match op {
        Operation::Create => !exists,
        Operation::Remove => exists,
    }
}

/// Whether a directory counts as done: no action was needed, or the action
/// succeeded.
pub open spec fn outcome(op: Operation, exists: bool, attempt_ok: bool) -> bool {
    !attempt_needed(op, exists) || attempt_ok
}

/// Whether `op` must act on a directory that `exists` says is present or not.
pub fn needs_attempt(op: Operation, exists: bool) -> (r: bool)
    ensures
        r == attempt_needed(op, exists),
{
    match op {
        Operation::Create => !exists,
        Operation::Remove => exists,
    }
}

/// The directory that follows `current` when all three are worked through:
/// cache first, then config, then data, and nothing after data.
pub open spec fn successor(current: Option<DirKind>) -> Option<DirKind> {
    match current {
        None => Some(DirKind::Cache),
        Some(DirKind::Cache) => Some(DirKind::Config),
        Some(DirKind::Config) => Some(DirKind::Data),
        Some(DirKind::Data) => None,
    }
}

/// The directory to handle after `current` (`None` to start), or `None`
/// once all three have been handled.
pub fn next_kind(current: Option<DirKind>) -> (r: Option<DirKind>)
    ensures
        r == successor(current),
{
    match current {
        None => Some(DirKind::Cache),
        Some(DirKind::Cache) => Some(DirKind::Config),
        Some(DirKind::Config) => Some(DirKind::Data),
        Some(DirKind::Data) => None,
    }
}

/// Walking from the start visits every directory exactly once, in the order
/// cache, config, data, and then stops.
pub proof fn walk_visits_each_once()
    ensures
        successor(None) == Some(DirKind::Cache),
        successor(successor(None)) == Some(DirKind::Config),
        successor(successor(successor(None))) == Some(DirKind::Data),
        successor(successor(successor(successor(None)))) == None::<DirKind>,
{
}

/// Whether each of the three directories was dealt with: `true` where it was
/// created (or removed), and where it already was as wanted.
#[derive(Clone, Copy, Debug, PartialEq, Eq, Structural)]
pub struct CreateRemoveResult {
    pub cache: bool,
    pub config: bool,
    pub data: bool,
}

impl CreateRemoveResult {
    pub open spec fn flag(self, kind: DirKind) -> bool {
        match kind {
            DirKind::Cache => self.cache,
            DirKind::Config => self.config,
            DirKind::Data => self.data,
        }
    }

    /// The report before any directory is looked at: nothing has failed.
    pub fn all_done() -> (r: CreateRemoveResult)
        ensures
            r.cache && r.config && r.data,
    {
        CreateRemoveResult { cache: true, config: true, data: true }
    }

    /// Records what became of the directory of `kind`: it existed or not
    /// before, and `attempt_ok` tells whether the action on it succeeded,
    /// where one was needed. Every directory is handled on its own: the
    /// other two flags keep their values.
    pub fn record(&mut self, kind: DirKind, op: Operation, exists: bool, attempt_ok: bool)
        ensures
            final(self).flag(kind) == (old(self).flag(kind) && outcome(op, exists, attempt_ok)),
            forall|other: DirKind| other != kind ==> final(self).flag(other) == old(self).flag(other),
    {
        if needs_attempt(op, exists) && !attempt_ok {
            match kind {
                DirKind::Cache => self.cache = false,
                DirKind::Config => self.config = false,
                DirKind::Data => self.data = false,
            }
        }
    }
}

/// Creating a directory that is already there needs no action and counts as
/// done, whatever an action would have returned; so a create that follows a
/// successful one acts on nothing and reports every directory as done.
pub proof fn create_of_existing_is_done(exists_after_first: bool, attempt_ok: bool)
    requires
        exists_after_first,
    ensures
        !attempt_needed(Operation::Create, exists_after_first),
        outcome(Operation::Create, exists_after_first, attempt_ok),
{
}

/// Removing a directory that is already gone needs no action and counts as
/// done, whatever an action would have returned.
pub proof fn remove_of_absent_is_done(exists: bool, attempt_ok: bool)
    requires
        !exists,
    ensures
        !attempt_needed(Operation::Remove, exists),
        outcome(Operation::Remove, exists, attempt_ok),
{
}

} // verus!

//! What a repository looks like to the classifier, as plain values.

use vstd::prelude::*;

verus! {

/// The multi-step operation a repository is in the middle of, if any.
#[derive(Clone, Copy, Debug, PartialEq, Eq, Structural)]
pub enum OperationalState {
    Clean,
    Merge,
    Revert,
    RevertSequence,
    CherryPick,
    CherryPickSequence,
    Bisect,
    Rebase,
    RebaseInteractive,
    RebaseMerge,
    ApplyMailbox,
    ApplyMailboxOrRebase,
}

/// The three observations that decide whether a repository is clean.
#[derive(Clone, Copy, Debug, PartialEq, Eq, Structural)]
pub struct RepoStatus {
    /// The operation in progress.
    pub state: OperationalState,
    /// Number of files that differ between the index and the working tree.
    pub worktree_changes: usize,
    /// Number of files that differ between the last commit and the index.
    pub staged_changes: usize,
}

impl RepoStatus {
    /// A repository is clean when no operation is in progress and neither the
    /// working tree nor the index holds a change.
    pub open spec fn clean(self) -> bool {
        &&& self.state == OperationalState::Clean
        &&& self.worktree_changes == 0
        &&& self.staged_changes == 0
    }

    /// Decides whether the repository may be updated without losing work.
    pub fn is_clean(&self) -> (clean: bool)
        ensures
            clean == self.clean(),
    {
        self.state == OperationalState::Clean && self.worktree_changes == 0
            && self.staged_changes == 0
    }
}

/// A status in which no operation is in progress and nothing has changed is
/// clean, and a status that differs from a clean one in any of the three
/// observations is not.
pub proof fn lemma_any_change_makes_unclean(clean: RepoStatus, changed: RepoStatus)
    requires
        clean.state == OperationalState::Clean,
        clean.worktree_changes == 0,
        clean.staged_changes == 0,
        changed.state != clean.state || changed.worktree_changes != clean.worktree_changes
            || changed.staged_changes != clean.staged_changes,
    ensures
        clean.clean(),
        !changed.clean(),
{
}

} // verus!

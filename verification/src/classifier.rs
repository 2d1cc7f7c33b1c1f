//! Decides whether the repository in a directory is safe to update.

use vstd::prelude::*;
use crate::error::Operation;
use crate::error::VersionControlError;
use crate::gateway::fetch_origin;
use crate::gateway::get_cached_diff_size;
use crate::gateway::get_current_branch;
use crate::gateway::get_diff_size;
use crate::gateway::get_state;
use crate::gateway::open_repository;
use crate::status::RepoStatus;

verus! {

/// The operations that a classification performs, and so the ones that its
/// failure can come from.
pub open spec fn inspects(operation: Operation) -> bool {
    ||| operation == Operation::Open
    ||| operation == Operation::ResolveBranch
    ||| operation == Operation::Fetch
    ||| operation == Operation::WorktreeDiff
    ||| operation == Operation::StagedDiff
}

/// The verdict on what an inspection gave: the cleanliness of the status that
/// was observed, or the failure that kept it from being observed.
pub open spec fn verdict(observed: Result<RepoStatus, VersionControlError>) -> Result<
    bool,
    VersionControlError,
> {
    match observed {
        Ok(status) => Ok(status.clean()),
        Err(error) => Err(error),
    }
}

/// Opens the repository in `dir`, fetches its current branch from `origin`
/// and observes the three things that cleanliness depends on. The first
/// operation that fails ends the inspection; whatever happens, a failure
/// comes from one of the operations of `inspects`.
pub fn inspect_repository(dir: &str, private_key: Option<&str>) -> (observed: Result<
    RepoStatus,
    VersionControlError,
>)
    ensures
        observed matches Err(error) ==> inspects(error.operation),
{
    let repo = match open_repository(dir) {
        Ok(repo) => repo,
        Err(error) => { return Err(error); },
    };
    let branch = match get_current_branch(&repo) {
        Ok(branch) => branch,
        Err(error) => { return Err(error); },
    };
    match fetch_origin(&repo, branch.as_str(), private_key) {
        Ok(()) => {},
        Err(error) => { return Err(error); },
    }
    let worktree_changes = match get_diff_size(&repo) {
        Ok(count) => count,
        Err(error) => { return Err(error); },
    };
    let staged_changes = match get_cached_diff_size(&repo) {
        Ok(count) => count,
        Err(error) => { return Err(error); },
    };
    Ok(RepoStatus { state: get_state(&repo), worktree_changes, staged_changes })
}

/// Turns what an inspection gave into the classification: clean or not
/// where a status was observed, the failure where none was.
pub fn classify(observed: Result<RepoStatus, VersionControlError>) -> (classified: Result<
    bool,
    VersionControlError,
>)
    ensures
        classified == verdict(observed),
{
    match observed {
        Ok(status) => Ok(status.is_clean()),
        Err(error) => Err(error),
    }
}

/// Says whether `dir` holds a repository without local changes, after
/// fetching from `origin`. Fails where `dir` is no repository or could not be
/// inspected; whatever happens, a failure comes from one of the operations of
/// `inspects`.
pub fn check_if_repo_is_clean(dir: &str, private_key: Option<&str>) -> (classified: Result<
    bool,
    VersionControlError,
>)
    ensures
        classified matches Err(error) ==> inspects(error.operation),
{
    classify(inspect_repository(dir, private_key))
}

} // verus!

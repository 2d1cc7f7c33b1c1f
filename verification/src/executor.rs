//! Brings one repository up to date with its remote tracking branch.

use vstd::prelude::*;
use crate::error::Operation;
use crate::error::VersionControlError;
use crate::gateway::get_current_branch;
use crate::gateway::open_repository;
use crate::gateway::pull_branch_from_remote;
use crate::gateway::reset_branch_to_remote;

verus! {

/// The operations that an update performs, and so the ones that its failure
/// can come from: a reset only where the update is forced.
pub open spec fn performs(operation: Operation, force_update: bool) -> bool {
    ||| operation == Operation::Open
    ||| operation == Operation::ResolveBranch
    ||| operation == Operation::Reset && force_update
    ||| operation == Operation::Merge
}

/// Updates the repository in `dir`: where `force_update` is set, first resets
/// it to its remote tracking branch, which discards local changes; then
/// merges the fetched head. The counter goes up by one exactly when the
/// update succeeds.
pub fn update_repo(dir: &str, force_update: bool, update_count: &mut u16) -> (updated: Result<
    (),
    VersionControlError,
>)
    requires
        *old(update_count) < u16::MAX,
    ensures
        updated is Ok ==> *final(update_count) == *old(update_count) + 1,
        updated is Err ==> *final(update_count) == *old(update_count),
        updated matches Err(error) ==> performs(error.operation, force_update),
{
    let repo = match open_repository(dir) {
        Ok(repo) => repo,
        Err(error) => { return Err(error); },
    };
    let branch = match get_current_branch(&repo) {
        Ok(branch) => branch,
        Err(error) => { return Err(error); },
    };
    if force_update {
        match reset_branch_to_remote(&repo, branch.as_str()) {
            Ok(()) => {},
            Err(error) => { return Err(error); },
        }
    }
    match pull_branch_from_remote(&repo) {
        Ok(()) => {},
        Err(error) => { return Err(error); },
    }
    *update_count += 1;
    Ok(())
}

} // verus!

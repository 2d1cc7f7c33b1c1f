//! The version-control capability the rest of the crate calls into: branch
//! lookup, fetch, the two diff sizes, hard reset and merge, on top of `git2`.
//!
//! What a call finds depends on the repository on disk and on the remote, so
//! the functions here promise only what holds of every outcome. The rules that
//! do not depend on them are in `branch`, `credentials` and `error`.

use vstd::prelude::*;
use git2::Repository;
use crate::branch::branch_from_head_name;
use crate::branch::branch_of_head;
use crate::branch::branch_of_reference;
use crate::branch::default_branch;
use crate::branch::lemma_branch_of_reference_is_a_segment;
use crate::branch::lemma_default_branch;
use crate::branch::remote_tracking_reference;
use crate::branch::separator;
use crate::credentials::can_offer;
use crate::credentials::choose_credential;
use crate::credentials::representable;
use crate::credentials::text_of;
use crate::credentials::Credential;
use crate::error::missing_key_text;
use crate::error::Operation;
use crate::error::VersionControlError;
use crate::status::OperationalState;

verus! {

#[verifier::external_type_specification]
#[verifier::external_body]
pub struct ExRepository(git2::Repository);

#[verifier::external_type_specification]
#[verifier::external_body]
pub struct ExGitError(git2::Error);

#[verifier::external_type_specification]
#[verifier::external_body]
pub struct ExReference<'repo>(git2::Reference<'repo>);

#[verifier::external_type_specification]
#[verifier::external_body]
pub struct ExCred(git2::Cred);

#[verifier::external_type_specification]
#[verifier::external_body]
pub struct ExDiff<'repo>(git2::Diff<'repo>);

/// `git2::Repository::open`. Nothing is claimed of the outcome.
#[verifier::external_body]
fn open_at(path: &str) -> (opened: Result<Repository, git2::Error>) {
    Repository::open(path)
}

/// `git2::Repository::head`. Nothing is claimed of the outcome.
#[verifier::external_body]
fn head_of<'repo>(repo: &'repo Repository) -> (head: Result<git2::Reference<'repo>, git2::Error>) {
    repo.head()
}

/// `git2::Reference::name`: the full name of the reference, or `None` where it
/// is not valid UTF-8. Nothing is claimed of the name.
#[verifier::external_body]
fn name_of(reference: &git2::Reference<'_>) -> (name: Option<String>) {
    reference.name().ok().map(String::from)
}

/// `git2::Repository::state`, variant for variant. `git2` panics on a state
/// that it does not know; the engine it is built with reports none.
#[verifier::external_body]
fn state_of(repo: &Repository) -> (state: OperationalState) {
    match repo.state() {
        git2::RepositoryState::Clean => OperationalState::Clean,
        git2::RepositoryState::Merge => OperationalState::Merge,
        git2::RepositoryState::Revert => OperationalState::Revert,
        git2::RepositoryState::RevertSequence => OperationalState::RevertSequence,
        git2::RepositoryState::CherryPick => OperationalState::CherryPick,
        git2::RepositoryState::CherryPickSequence => OperationalState::CherryPickSequence,
        git2::RepositoryState::Bisect => OperationalState::Bisect,
        git2::RepositoryState::Rebase => OperationalState::Rebase,
        git2::RepositoryState::RebaseInteractive => OperationalState::RebaseInteractive,
        git2::RepositoryState::RebaseMerge => OperationalState::RebaseMerge,
        git2::RepositoryState::ApplyMailbox => OperationalState::ApplyMailbox,
        git2::RepositoryState::ApplyMailboxOrRebase => OperationalState::ApplyMailboxOrRebase,
    }
}

/// `git2::Repository::diff_index_to_workdir` on the repository's own index,
/// with default options. Nothing is claimed of the outcome.
#[verifier::external_body]
fn index_to_worktree<'repo>(repo: &'repo Repository) -> (diff: Result<
    git2::Diff<'repo>,
    git2::Error,
>) {
    repo.diff_index_to_workdir(None, None)
}

/// `git2::Repository::diff_tree_to_index` from the tree that `head` peels to
/// (`git2::Reference::peel_to_tree`) to the repository's own index, with
/// default options. Nothing is claimed of the outcome.
#[verifier::external_body]
fn head_to_index<'repo>(repo: &'repo Repository, head: &git2::Reference<'_>) -> (diff: Result<
    git2::Diff<'repo>,
    git2::Error,
>) {
    let tree = head.peel_to_tree()?;
    repo.diff_tree_to_index(Some(&tree), None, None)
}

/// `git2::DiffStats::files_changed` of the `git2::Diff::stats` of a diff.
/// Nothing is claimed of the count.
#[verifier::external_body]
fn files_changed(diff: &git2::Diff<'_>) -> (count: Result<usize, git2::Error>) {
    Ok(diff.stats()?.files_changed())
}

/// `git2::Remote::fetch` of one branch from the remote that
/// `git2::Repository::find_remote` gives for `remote`, downloading all tags,
/// with `git_credentials_callback` answering requests for credentials.
/// Nothing is claimed of the outcome.
#[verifier::external_body]
fn fetch_from(repo: &Repository, remote: &str, branch: &str, private_key: Option<&str>) -> (fetched:
    Result<(), git2::Error>) {
    let mut callbacks = git2::RemoteCallbacks::new();
    callbacks.credentials(
        |_url, user, allowed| git_credentials_callback(user, allowed.bits(), private_key),
    );
    let mut options = git2::FetchOptions::new();
    options.remote_callbacks(callbacks);
    options.download_tags(git2::AutotagOption::All);
    repo.find_remote(remote)?.fetch(&[branch], Some(&mut options), None)
}

/// `git2::Repository::reset`, hard and with default checkout options, to the
/// object that `refname_to_id` and `find_object` give for `reference`.
/// Nothing is claimed of the outcome.
#[verifier::external_body]
fn hard_reset_to(repo: &Repository, reference: &str) -> (reset: Result<(), git2::Error>) {
    let id = repo.refname_to_id(reference)?;
    let target = repo.find_object(id, None)?;
    repo.reset(&target, git2::ResetType::Hard, None)
}

/// `git2::Repository::merge`, with default options, of the commit that
/// `find_reference` and `reference_to_annotated_commit` give for `reference`.
/// Nothing is claimed of the outcome.
#[verifier::external_body]
fn merge_from(repo: &Repository, reference: &str) -> (merged: Result<(), git2::Error>) {
    let found = repo.find_reference(reference)?;
    let commit = repo.reference_to_annotated_commit(&found)?;
    repo.merge(&[&commit], None, None)
}

/// `git2::Cred::username`. It fails exactly where the name holds a NUL
/// character; building the credential itself fails only for want of memory.
#[verifier::external_body]
fn username_credential(user: &str) -> (credential: Result<git2::Cred, git2::Error>)
    ensures
        credential is Ok <==> representable(user@),
{
    git2::Cred::username(user)
}

/// `git2::Cred::ssh_key` for a private key on disk, without a public key or a
/// passphrase. It fails exactly where the name or the path holds a NUL
/// character; the key is not read, and building the credential itself fails
/// only for want of memory.
#[verifier::external_body]
fn key_credential(user: &str, private_key: &str) -> (credential: Result<git2::Cred, git2::Error>)
    ensures
        credential is Ok <==> (representable(user@) && representable(private_key@)),
{
    git2::Cred::ssh_key(user, None, std::path::Path::new(private_key), None)
}

/// `git2::Error::from_str`. Nothing is claimed of the error.
#[verifier::external_body]
fn refusal(message: &str) -> (error: git2::Error) {
    git2::Error::from_str(message)
}

/// Copies `raw_code`, `raw_class` and `message` out of a `git2::Error`. Of
/// the result only the operation is claimed, which is the one handed in.
#[verifier::external_body]
fn failure(operation: Operation, error: &git2::Error) -> (failed: VersionControlError)
    ensures
        failed.operation == operation,
{
    VersionControlError {
        operation,
        code: error.raw_code(),
        class: error.raw_class(),
        message: error.message().to_string(),
    }
}

/// The name of an optional owned string, as an optional view.
pub open spec fn name_view(name: Option<String>) -> Option<Seq<char>> {
    match name {
        Some(n) => Some(n@),
        None => None,
    }
}

/// What the current branch is, given what reading HEAD's reference gave.
pub open spec fn resolves_to(
    head_name: Result<Option<String>, VersionControlError>,
    resolved: Result<String, VersionControlError>,
) -> bool {
    match head_name {
        Ok(name) => resolved matches Ok(branch) && branch@ == branch_of_head(name_view(name)),
        Err(error) => if error.unborn() {
            resolved matches Ok(branch) && branch@ == default_branch()
        } else {
            resolved == Err::<String, VersionControlError>(error)
        },
    }
}

/// Turns the outcome of a call into the engine into the gateway's own: what
/// the call gave is handed on as it is; a failure of the call becomes a
/// failure of `operation`.
pub fn outcome_of<T>(outcome: Result<T, git2::Error>, operation: Operation) -> (reported: Result<
    T,
    VersionControlError,
>)
    ensures
        outcome matches Ok(value) ==> reported == Ok::<T, VersionControlError>(value),
        outcome is Err ==> (reported matches Err(error) && error.operation == operation),
{
    match outcome {
        Ok(value) => Ok(value),
        Err(error) => Err(failure(operation, &error)),
    }
}

/// Answers a request for credentials during a fetch: a user name where the
/// remote accepts one, otherwise the private key at the configured path, and a
/// failure with the missing-key message where none is configured. It
/// succeeds exactly where there is a credential to offer and the engine can
/// take the user name and the path that it is made of.
pub fn git_credentials_callback(
    user_from_url: Option<&str>,
    allowed: u32,
    private_key: Option<&str>,
) -> (credential: Result<git2::Cred, git2::Error>)
    ensures
        credential is Ok <==> can_offer(text_of(user_from_url), allowed, text_of(private_key)),
{
    match choose_credential(user_from_url, allowed, private_key) {
        Credential::Username { user } => username_credential(user.as_str()),
        Credential::SshKey { user, private_key: key } => key_credential(
            user.as_str(),
            key.as_str(),
        ),
        Credential::Unavailable => Err(refusal(missing_key_text())),
    }
}

/// Opens the repository rooted at `path`. A failure always carries
/// `Operation::Open`, and so is classed as "not a repository".
pub fn open_repository(path: &str) -> (opened: Result<Repository, VersionControlError>)
    ensures
        opened matches Err(error) ==> error.operation == Operation::Open,
{
    outcome_of(open_at(path), Operation::Open)
}

/// Turns what reading HEAD's reference gave into the current branch: the last
/// segment of the reference's name; the default branch where the name could
/// not be read, where its last segment is empty, or where HEAD points at a
/// branch without a commit; any other failure is handed on.
pub fn resolve_branch(head_name: Result<Option<String>, VersionControlError>) -> (resolved: Result<
    String,
    VersionControlError,
>)
    ensures
        resolves_to(head_name, resolved),
        resolved matches Ok(branch) ==> branch@.len() > 0 && !branch@.contains(separator()),
{
    proof {
        lemma_default_branch();
        assert forall|name: Seq<char>|
            (#[trigger] branch_of_reference(name)).len() > 0 && !branch_of_reference(
                name,
            ).contains(separator()) by {
            lemma_branch_of_reference_is_a_segment(name);
        }
    }
    match head_name {
        Ok(Some(name)) => Ok(branch_from_head_name(Some(name.as_str()))),
        Ok(None) => Ok(branch_from_head_name(None)),
        Err(error) => {
            if error.is_unborn_branch() {
                Ok(branch_from_head_name(None))
            } else {
                Err(error)
            }
        },
    }
}

/// The name of the branch that is checked out. Whatever the repository
/// holds, a name that is returned is not empty and holds no separator, and a
/// failure comes from reading HEAD and is not the one of an unborn branch.
pub fn get_current_branch(repo: &Repository) -> (branch: Result<String, VersionControlError>)
    ensures
        branch matches Ok(name) ==> name@.len() > 0 && !name@.contains(separator()),
        branch matches Err(error) ==> error.operation == Operation::ResolveBranch
            && !error.unborn(),
{
    let head_name = match head_of(repo) {
        Ok(head) => Ok(name_of(&head)),
        Err(error) => Err(error),
    };
    resolve_branch(outcome_of(head_name, Operation::ResolveBranch))
}

/// Fetches `branch_name` and all tags from the remote `origin`,
/// authenticating as `git_credentials_callback` decides. A failure always
/// carries `Operation::Fetch`.
pub fn fetch_origin(repo: &Repository, branch_name: &str, private_key: Option<&str>) -> (fetched:
    Result<(), VersionControlError>)
    ensures
        fetched matches Err(error) ==> error.operation == Operation::Fetch,
{
    outcome_of(fetch_from(repo, "origin", branch_name, private_key), Operation::Fetch)
}

/// The number of files that differ between the index and the working tree. A
/// failure always carries `Operation::WorktreeDiff`.
pub fn get_diff_size(repo: &Repository) -> (count: Result<usize, VersionControlError>)
    ensures
        count matches Err(error) ==> error.operation == Operation::WorktreeDiff,
{
    let counted = match index_to_worktree(repo) {
        Ok(diff) => files_changed(&diff),
        Err(error) => Err(error),
    };
    outcome_of(counted, Operation::WorktreeDiff)
}

/// The number of files that differ between the last commit and the index. A
/// failure always carries `Operation::StagedDiff`.
pub fn get_cached_diff_size(repo: &Repository) -> (count: Result<usize, VersionControlError>)
    ensures
        count matches Err(error) ==> error.operation == Operation::StagedDiff,
{
    let compared = match head_of(repo) {
        Ok(head) => head_to_index(repo, &head),
        Err(error) => Err(error),
    };
    let counted = match compared {
        Ok(diff) => files_changed(&diff),
        Err(error) => Err(error),
    };
    outcome_of(counted, Operation::StagedDiff)
}

/// The multi-step operation that the repository is in the middle of.
pub fn get_state(repo: &Repository) -> (state: OperationalState) {
    state_of(repo)
}

/// Resets index and working tree to the remote tracking reference of
/// `branch_name` on `origin`, discarding local changes. A failure always
/// carries `Operation::Reset`.
pub fn reset_branch_to_remote(repo: &Repository, branch_name: &str) -> (reset: Result<
    (),
    VersionControlError,
>)
    ensures
        reset matches Err(error) ==> error.operation == Operation::Reset,
{
    let reset = match head_of(repo) {
        Ok(_) => hard_reset_to(repo, remote_tracking_reference(branch_name).as_str()),
        Err(error) => Err(error),
    };
    outcome_of(reset, Operation::Reset)
}

/// Merges what the last fetch left in `FETCH_HEAD` into the current branch.
/// The result is left in the index and the working tree, and the repository
/// stays in the middle of the merge until it is committed. A failure always
/// carries `Operation::Merge`.
pub fn pull_branch_from_remote(repo: &Repository) -> (merged: Result<(), VersionControlError>)
    ensures
        merged matches Err(error) ==> error.operation == Operation::Merge,
{
    outcome_of(merge_from(repo, "FETCH_HEAD"), Operation::Merge)
}

} // verus!

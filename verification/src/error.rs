//! Failures of the version-control gateway, as plain values.

use vstd::prelude::*;
use vstd::string::StringExecFns;

verus! {

/// The gateway operation that a failure came from.
#[derive(Clone, Copy, Debug, PartialEq, Eq, Structural)]
pub enum Operation {
    /// Opening a directory as a repository.
    Open,
    /// Reading the reference that HEAD points at.
    ResolveBranch,
    /// Fetching from the remote.
    Fetch,
    /// Comparing the index with the working tree.
    WorktreeDiff,
    /// Comparing the last commit with the index.
    StagedDiff,
    /// Resetting to the remote tracking branch.
    Reset,
    /// Merging the fetched head.
    Merge,
}

/// The class of a failure, which decides how the traversal reacts to it.
#[derive(Clone, Copy, Debug, PartialEq, Eq, Structural)]
pub enum ErrorKind {
    /// The directory is not the root of a repository.
    NotARepository,
    /// No usable way to authenticate was found for a fetch.
    Credential,
    /// Any other failure of a gateway operation.
    VersionControl,
}

/// A failed gateway operation, with what the underlying engine said about it.
#[derive(Debug, PartialEq, Eq)]
pub struct VersionControlError {
    /// The operation that failed.
    pub operation: Operation,
    /// The engine's error code.
    pub code: i32,
    /// The engine's error class.
    pub class: u32,
    /// The engine's message.
    pub message: String,
}

/// The engine's code for a HEAD that points at a branch without a commit.
pub const UNBORN_BRANCH: i32 = -9;

/// The message of the failure raised when key-based authentication is asked
/// for and no private key has been configured.
pub open spec fn missing_key_message() -> Seq<char> {
    "unable to get private key from GPM_SSH_KEY"@
}

/// The message of the failure raised when key-based authentication is asked
/// for and no private key has been configured.
pub fn missing_key_text() -> (text: &'static str)
    ensures
        text@ == missing_key_message(),
{
    "unable to get private key from GPM_SSH_KEY"
}

impl VersionControlError {
    /// How a failure is classed: a failed open means that the directory is no
    /// repository; a fetch that failed for want of a private key is a
    /// credential failure; everything else is a version-control failure.
    pub open spec fn kind_of(self) -> ErrorKind {
        if self.operation == Operation::Open {
            ErrorKind::NotARepository
        } else if self.operation == Operation::Fetch && self.message@ == missing_key_message() {
            ErrorKind::Credential
        } else {
            ErrorKind::VersionControl
        }
    }

    /// Whether the failure says that HEAD points at a branch without a commit.
    pub open spec fn unborn(self) -> bool {
        self.code == UNBORN_BRANCH
    }

    /// Classes the failure.
    pub fn kind(&self) -> (kind: ErrorKind)
        ensures
            kind == self.kind_of(),
    {
        if self.operation == Operation::Open {
            ErrorKind::NotARepository
        } else if self.operation == Operation::Fetch && self.message == String::from_str(
            missing_key_text(),
        ) {
            ErrorKind::Credential
        } else {
            ErrorKind::VersionControl
        }
    }

    /// Whether the failure says that HEAD points at a branch without a commit.
    pub fn is_unborn_branch(&self) -> (unborn: bool)
        ensures
            unborn == self.unborn(),
    {
        self.code == UNBORN_BRANCH
    }
}

} // verus!

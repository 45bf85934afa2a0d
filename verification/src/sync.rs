//! Shared types of the synchronization engine: the outcome of one external
//! command, the classified errors, and the `GitSync` entry point that the pull
//! and push state machines hang off.

use vstd::prelude::*;

verus! {

use crate::SyncContext;
use crate::josh::JoshProxy;

/// The upstream repository that history is pulled from and pushed back to.
pub const DEFAULT_UPSTREAM_REPO: &'static str = "rust-lang/rust";

/// What the driver reports back about one external command: whether it exited
/// successfully, and its captured standard output (trimmed of surrounding
/// whitespace by the runner).
#[derive(Clone, Debug)]
pub struct CmdOutcome {
    pub ok: bool,
    pub output: String,
}

#[verifier::ext_equal]
pub struct CmdOutcomeV {
    pub ok: bool,
    pub output: Seq<char>,
}

impl View for CmdOutcome {
    type V = CmdOutcomeV;

    open spec fn view(&self) -> CmdOutcomeV {
        CmdOutcomeV { ok: self.ok, output: self.output@ }
    }
}

/// Which high-level step of a synchronization failed.
#[derive(Clone, Copy, Debug, PartialEq, Eq, Structural)]
pub enum SyncErrorKind {
    /// The upstream head could not be determined.
    ResolveFailed,
    /// The cleanliness of the working tree could not be determined.
    PreflightFailed,
    /// The working tree holds uncommitted changes to tracked files.
    DirtyWorkTree,
    /// A current commit SHA could not be read.
    HeadResolveFailed,
    /// The marker commit recording the new upstream base could not be created.
    MarkerCommitFailed,
    /// The filtering proxy did not come up.
    ProxyStartFailed,
    /// Fetching the filtered history through the proxy failed.
    FetchFailed,
    /// The number of root commits could not be determined.
    RootCountFailed,
    /// The merge of the fetched history errored, most likely with conflicts.
    MergeFailed,
    /// A configured post-pull operation failed.
    PostOpFailed,
    /// The pull added a root commit: the filtered history is disconnected.
    RootInvariantViolated,
    /// Restoring the pre-pull state failed; the repository state is ambiguous.
    RollbackFailed,
    /// The target branch already exists on the fork.
    BranchAlreadyExists,
    /// The synchronization base commit could not be fetched from upstream.
    BaseFetchFailed,
    /// The base commit could not be pushed to the fork branch.
    BasePushFailed,
    /// Pushing the filtered local history to the fork failed.
    PushFailed,
    /// Fetching the pushed branch back through the proxy failed.
    RoundTripFetchFailed,
    /// The pushed and fetched-back commits differ: the filter did not
    /// round-trip.
    RoundTripMismatch,
    /// Cloning an upstream checkout failed.
    CheckoutCloneFailed,
    /// No upstream checkout is available for push staging.
    CheckoutMissing,
}

/// A classified failure with a human-readable description.
#[derive(Clone, Debug)]
pub struct SyncError {
    pub kind: SyncErrorKind,
    pub message: String,
}

#[verifier::ext_equal]
pub struct SyncErrorV {
    pub kind: SyncErrorKind,
    pub message: Seq<char>,
}

impl View for SyncError {
    type V = SyncErrorV;

    open spec fn view(&self) -> SyncErrorV {
        SyncErrorV { kind: self.kind, message: self.message@ }
    }
}

/// Outcome classification of a pull, distinguishing "nothing to pull" from a
/// hard failure so that callers can branch on it.
#[derive(Clone, Debug)]
pub enum RustcPullError {
    /// No changes are available to be pulled.
    NothingToPull,
    /// A pull has failed, probably a git operation error has occurred.
    PullFailed(SyncError),
}

#[verifier::ext_equal]
pub enum RustcPullErrorV {
    NothingToPull,
    PullFailed(SyncErrorV),
}

impl View for RustcPullError {
    type V = RustcPullErrorV;

    open spec fn view(&self) -> RustcPullErrorV {
        match self {
            RustcPullError::NothingToPull => RustcPullErrorV::NothingToPull,
            RustcPullError::PullFailed(e) => RustcPullErrorV::PullFailed(e@),
        }
    }
}

#[derive(Clone, Debug)]
pub struct PullResult {
    pub merge_commit_message: String,
}

#[verifier::ext_equal]
pub struct PullResultV {
    pub merge_commit_message: Seq<char>,
}

impl View for PullResult {
    type V = PullResultV;

    open spec fn view(&self) -> PullResultV {
        PullResultV { merge_commit_message: self.merge_commit_message@ }
    }
}

/// Fails exactly when the porcelain status output is non-empty, i.e. when
/// tracked files hold uncommitted changes.
pub fn ensure_clean_git_state(status_output: &str) -> (r: Result<(), SyncError>)
    ensures
        r is Ok <==> status_output@.len() == 0,
        r matches Err(e) ==> e@.kind == SyncErrorKind::DirtyWorkTree
            && e@.message == "working directory must be clean"@,
{
    if status_output.is_empty() {
        Ok(())
    } else {
        Err(SyncError {
            kind: SyncErrorKind::DirtyWorkTree,
            message: "working directory must be clean".to_owned(),
        })
    }
}

/// The synchronization engine for one repository.
pub struct GitSync {
    pub context: SyncContext,
    pub proxy: JoshProxy,
    pub verbose: bool,
}

impl GitSync {
    pub fn new(context: SyncContext, proxy: JoshProxy, verbose: bool) -> (r: Self)
        ensures
            r.context@ == context@,
            r.proxy@ == proxy@,
            r.verbose == verbose,
    {
        GitSync { context, proxy, verbose }
    }
}

} // verus!

//! The pull orchestrator. It is a state machine: every git operation and the
//! proxy startup are performed by an unverified driver, which reports each
//! outcome back through `PullMachine::step` and receives the next action. All
//! decisions — what to run, when a pull is a no-op, what is rolled back and
//! what is deliberately left in place — are made here and verified against the
//! mathematical transition function `pull_step_spec`.

use vstd::prelude::*;

verus! {

use vstd::pervasive::unreached;
use crate::config::{JoshConfig, JoshConfigV};
use crate::josh::josh_url_spec;
use crate::josh::josh_git_url;
use crate::sync::{CmdOutcome, GitSync, PullResult, PullResultV, RustcPullError, RustcPullErrorV,
    SyncError, SyncErrorKind, SyncErrorV, ensure_clean_git_state};
use crate::text::{all_digits, dec_val, has_token, token_of, skip_ws, first_token, parse_u32,
    sha_prefix, clipped_prefix};

/// Where in the pull sequence the machine stands; each phase names the action
/// whose outcome it awaits.
#[derive(Clone, Copy, Debug, PartialEq, Eq, Structural)]
pub enum PullPhase {
    /// Awaiting the remote-ref listing that resolves the upstream head.
    ResolvingTarget,
    /// Awaiting the porcelain status output of the working tree.
    CheckingClean,
    /// Awaiting the pre-pull HEAD, the rollback target.
    CapturingHead,
    /// Awaiting the outcome of writing and committing the sync marker.
    CommittingMarker,
    /// Awaiting the filtering proxy's startup.
    StartingProxy,
    /// Awaiting the fetch of the filtered history.
    Fetching,
    /// Awaiting the pre-merge root-commit count.
    CountingRootsBefore,
    /// Awaiting the pre-merge HEAD.
    CapturingPreMergeHead,
    /// Awaiting the resolution of the fetched ref.
    ResolvingIncomingRef,
    /// Awaiting the merge of the fetched history.
    Merging,
    /// Awaiting the post-merge HEAD.
    CapturingMergedHead,
    /// Awaiting the content diff against the pre-merge state.
    CheckingNoopDiff,
    /// Awaiting the HEAD before one post-pull operation.
    CapturingPostOpHead,
    /// Awaiting the outcome of one post-pull operation.
    RunningPostOp,
    /// Awaiting the diff that decides whether the operation changed anything.
    CheckingPostOpDiff,
    /// Awaiting the commit of the operation's changes.
    CommittingPostOp,
    /// Awaiting the post-pull root-commit count.
    CountingRootsAfter,
    /// Awaiting the hard reset that restores the pre-pull state.
    RollingBack,
    /// The run is over; a result has been delivered.
    Finished,
}

/// A result waiting to be reported once the rollback completes.
#[derive(Clone, Debug)]
pub enum PendingOutcome {
    NothingToPull,
    Failed { kind: SyncErrorKind, message: String },
}

#[verifier::ext_equal]
pub enum PendingOutcomeV {
    NothingToPull,
    Failed { kind: SyncErrorKind, message: Seq<char> },
}

impl View for PendingOutcome {
    type V = PendingOutcomeV;

    open spec fn view(&self) -> PendingOutcomeV {
        match self {
            PendingOutcome::NothingToPull => PendingOutcomeV::NothingToPull,
            PendingOutcome::Failed { kind, message } => PendingOutcomeV::Failed {
                kind: *kind,
                message: message@,
            },
        }
    }
}

/// What the driver must do next.
#[derive(Debug)]
pub enum PullAction {
    /// List the remote's HEAD: `git ls-remote <url> HEAD`, captured.
    LsRemote { url: String },
    /// `git status --untracked-files=no --porcelain`, captured.
    CheckStatus,
    /// `git rev-parse HEAD`, captured.
    CaptureHead,
    /// Write `contents` to the marker file at `path`, then
    /// `git add <path>` and `git commit <path> --no-verify -m <message>`.
    CommitMarker { path: String, contents: String, message: String },
    /// Start the filtering proxy and report the port it listens on.
    StartProxy,
    /// `git fetch <url>`.
    FetchUpstream { url: String },
    /// `git rev-list HEAD --max-parents=0 --count`, captured.
    CountRoots,
    /// `git rev-parse FETCH_HEAD`, captured.
    ResolveFetchHead,
    /// `git merge FETCH_HEAD --no-verify --no-ff -m <message>`, streamed.
    MergeFetched { message: String },
    /// `git diff --exit-code <sha>`; report success exactly when the diff is
    /// empty.
    DiffAgainst { sha: String },
    /// Run the configured post-pull operation at this index.
    RunPostOp { index: usize },
    /// `git add -u` and `git commit -m <message>`.
    CommitPostOp { message: String },
    /// `git reset --hard <sha>`.
    ResetHard { sha: String },
    /// The run is over with this result; run nothing further.
    Finish { result: Result<PullResult, RustcPullError> },
}

#[verifier::ext_equal]
pub enum PullActionV {
    LsRemote { url: Seq<char> },
    CheckStatus,
    CaptureHead,
    CommitMarker { path: Seq<char>, contents: Seq<char>, message: Seq<char> },
    StartProxy,
    FetchUpstream { url: Seq<char> },
    CountRoots,
    ResolveFetchHead,
    MergeFetched { message: Seq<char> },
    DiffAgainst { sha: Seq<char> },
    RunPostOp { index: int },
    CommitPostOp { message: Seq<char> },
    ResetHard { sha: Seq<char> },
    Finish { result: Result<PullResultV, RustcPullErrorV> },
}

impl View for PullAction {
    type V = PullActionV;

    open spec fn view(&self) -> PullActionV {
        match self {
            PullAction::LsRemote { url } => PullActionV::LsRemote { url: url@ },
            PullAction::CheckStatus => PullActionV::CheckStatus,
            PullAction::CaptureHead => PullActionV::CaptureHead,
            PullAction::CommitMarker { path, contents, message } => PullActionV::CommitMarker {
                path: path@,
                contents: contents@,
                message: message@,
            },
            PullAction::StartProxy => PullActionV::StartProxy,
            PullAction::FetchUpstream { url } => PullActionV::FetchUpstream { url: url@ },
            PullAction::CountRoots => PullActionV::CountRoots,
            PullAction::ResolveFetchHead => PullActionV::ResolveFetchHead,
            PullAction::MergeFetched { message } => PullActionV::MergeFetched { message: message@ },
            PullAction::DiffAgainst { sha } => PullActionV::DiffAgainst { sha: sha@ },
            PullAction::RunPostOp { index } => PullActionV::RunPostOp { index: *index as int },
            PullAction::CommitPostOp { message } => PullActionV::CommitPostOp { message: message@ },
            PullAction::ResetHard { sha } => PullActionV::ResetHard { sha: sha@ },
            PullAction::Finish { result } => PullActionV::Finish {
                result: match result {
                    Ok(p) => Ok(p@),
                    Err(e) => Err(e@),
                },
            },
        }
    }
}

/// What the driver reports back.
#[derive(Debug)]
pub enum PullEvent {
    /// The outcome of the command the last action asked for.
    Cmd(CmdOutcome),
    /// The proxy came up on this port, or failed to come up.
    Proxy(Option<u16>),
}

#[verifier::ext_equal]
pub enum PullEventV {
    Cmd { ok: bool, output: Seq<char> },
    Proxy(Option<u16>),
}

impl View for PullEvent {
    type V = PullEventV;

    open spec fn view(&self) -> PullEventV {
        match self {
            PullEvent::Cmd(o) => PullEventV::Cmd { ok: o.ok, output: o.output@ },
            PullEvent::Proxy(p) => PullEventV::Proxy(*p),
        }
    }
}

/// The message of the marker commit that records the new upstream base.
pub open spec fn prep_message_spec(upstream_repo: Seq<char>, upstream_sha: Seq<char>) -> Seq<char> {
    "Prepare for merging from "@ + upstream_repo
        + "\n\nThis updates the rust-version file to "@ + upstream_sha + "."@
}

pub fn prep_message(upstream_repo: &str, upstream_sha: &str) -> (r: String)
    ensures
        r@ == prep_message_spec(upstream_repo@, upstream_sha@),
{
    let mut s = String::from_str("Prepare for merging from ");
    s.append(upstream_repo);
    s.append("\n\nThis updates the rust-version file to ");
    s.append(upstream_sha);
    s.append(".");
    proof {
        assert(s@ =~= prep_message_spec(upstream_repo@, upstream_sha@));
    }
    s
}

/// The merge commit message, embedding the upstream ref, the filtered ref and
/// a comparison link from the previous upstream base.
pub open spec fn merge_message_spec(
    upstream_repo: Seq<char>,
    upstream_sha: Seq<char>,
    incoming_ref: Seq<char>,
    prev_sha: Seq<char>,
) -> Seq<char> {
    "Merge ref '"@ + clipped_prefix(upstream_sha, 12) + "' from "@ + upstream_repo
        + "\n\nPull recent changes from https://github.com/"@ + upstream_repo
        + " via Josh.\n\nUpstream ref: "@ + upstream_sha
        + "\nFiltered ref: "@ + incoming_ref
        + "\nUpstream diff: https://github.com/rust-lang/rust/compare/"@ + prev_sha
        + "..."@ + upstream_sha
        + "\n\nThis merge was created using https://github.com/rust-lang/josh-sync.\n"@
}

pub fn merge_message(
    upstream_repo: &str,
    upstream_sha: &str,
    incoming_ref: &str,
    prev_sha: &str,
) -> (r: String)
    ensures
        r@ == merge_message_spec(upstream_repo@, upstream_sha@, incoming_ref@, prev_sha@),
{
    let short = sha_prefix(upstream_sha, 12);
    let mut s = String::from_str("Merge ref '");
    s.append(short.as_str());
    s.append("' from ");
    s.append(upstream_repo);
    s.append("\n\nPull recent changes from https://github.com/");
    s.append(upstream_repo);
    s.append(" via Josh.\n\nUpstream ref: ");
    s.append(upstream_sha);
    s.append("\nFiltered ref: ");
    s.append(incoming_ref);
    s.append("\nUpstream diff: https://github.com/rust-lang/rust/compare/");
    s.append(prev_sha);
    s.append("...");
    s.append(upstream_sha);
    s.append("\n\nThis merge was created using https://github.com/rust-lang/josh-sync.\n");
    proof {
        assert(s@ =~= merge_message_spec(upstream_repo@, upstream_sha@, incoming_ref@, prev_sha@));
    }
    s
}

/// The pull state machine.
pub struct PullMachine {
    pub phase: PullPhase,
    /// `org/name` of the upstream repository being pulled from.
    pub upstream_repo: String,
    /// Keep a merge whose content diff is empty instead of rolling it back.
    pub allow_noop: bool,
    pub config: JoshConfig,
    /// The marker recorded by the previous pull, if any.
    pub last_upstream_sha: Option<String>,
    /// Where the marker is persisted.
    pub marker_path: String,
    /// The resolved upstream commit to pull.
    pub upstream_sha: String,
    /// HEAD before any mutation; the rollback target.
    pub orig_head: String,
    /// HEAD just before the merge.
    pub sha_pre_merge: String,
    /// The filtered SHA of upstream, resolved from FETCH_HEAD.
    pub incoming_ref: String,
    /// The generated merge commit message.
    pub merge_message: String,
    /// Root commits reachable from HEAD before the merge.
    pub roots_before: u32,
    /// Whether a failure must restore `orig_head`.
    pub guard_armed: bool,
    /// The post-pull operation currently being run.
    pub post_op_index: usize,
    /// HEAD before the current post-pull operation.
    pub post_op_head: String,
    /// The result to deliver once the rollback completes.
    pub pending: Option<PendingOutcome>,
}

#[verifier::ext_equal]
pub struct PullMachineV {
    pub phase: PullPhase,
    pub upstream_repo: Seq<char>,
    pub allow_noop: bool,
    pub config: JoshConfigV,
    pub last_upstream_sha: Option<Seq<char>>,
    pub marker_path: Seq<char>,
    pub upstream_sha: Seq<char>,
    pub orig_head: Seq<char>,
    pub sha_pre_merge: Seq<char>,
    pub incoming_ref: Seq<char>,
    pub merge_message: Seq<char>,
    pub roots_before: u32,
    pub guard_armed: bool,
    pub post_op_index: int,
    pub post_op_head: Seq<char>,
    pub pending: Option<PendingOutcomeV>,
}

impl View for PullMachine {
    type V = PullMachineV;

    open spec fn view(&self) -> PullMachineV {
        PullMachineV {
            phase: self.phase,
            upstream_repo: self.upstream_repo@,
            allow_noop: self.allow_noop,
            config: self.config@,
            last_upstream_sha: self.last_upstream_sha.deep_view(),
            marker_path: self.marker_path@,
            upstream_sha: self.upstream_sha@,
            orig_head: self.orig_head@,
            sha_pre_merge: self.sha_pre_merge@,
            incoming_ref: self.incoming_ref@,
            merge_message: self.merge_message@,
            roots_before: self.roots_before,
            guard_armed: self.guard_armed,
            post_op_index: self.post_op_index as int,
            post_op_head: self.post_op_head@,
            pending: match &self.pending {
                Some(p) => Some(p@),
                None => None,
            },
        }
    }
}

/// The phases that run one post-pull operation.
pub open spec fn in_post_op_phase(p: PullPhase) -> bool {
    ||| p == PullPhase::CapturingPostOpHead
    ||| p == PullPhase::RunningPostOp
    ||| p == PullPhase::CheckingPostOpDiff
    ||| p == PullPhase::CommittingPostOp
}

/// The phases during which a failure (other than a merge conflict) must
/// restore the pre-pull HEAD: everything between the marker commit and the
/// final disarm.
pub open spec fn guard_armed_in(p: PullPhase) -> bool {
    ||| p == PullPhase::StartingProxy
    ||| p == PullPhase::Fetching
    ||| p == PullPhase::CountingRootsBefore
    ||| p == PullPhase::CapturingPreMergeHead
    ||| p == PullPhase::ResolvingIncomingRef
    ||| p == PullPhase::Merging
    ||| p == PullPhase::CapturingMergedHead
    ||| p == PullPhase::CheckingNoopDiff
    ||| in_post_op_phase(p)
}

impl PullMachineV {
    pub open spec fn wf(self) -> bool {
        &&& self.config.wf()
        &&& in_post_op_phase(self.phase) ==> 0 <= self.post_op_index
            < self.config.post_pull.len()
        &&& self.phase == PullPhase::RollingBack ==> self.pending is Some
        &&& guard_armed_in(self.phase) ==> self.guard_armed
        &&& self.phase == PullPhase::CountingRootsAfter ==> !self.guard_armed
    }

    /// The previous upstream base named in the merge message: the stored
    /// marker, or the new target when no pull happened before.
    pub open spec fn prev_sha(self) -> Seq<char> {
        match self.last_upstream_sha {
            Some(p) => p,
            None => self.upstream_sha,
        }
    }
}

/// A terminal failure action.
pub open spec fn pull_fail_v(kind: SyncErrorKind, msg: Seq<char>) -> PullActionV {
    PullActionV::Finish {
        result: Err(RustcPullErrorV::PullFailed(SyncErrorV { kind, message: msg })),
    }
}

/// The result a pending outcome is reported as.
pub open spec fn pending_result_v(p: PendingOutcomeV) -> Result<PullResultV, RustcPullErrorV> {
    match p {
        PendingOutcomeV::NothingToPull => Err(RustcPullErrorV::NothingToPull),
        PendingOutcomeV::Failed { kind, message } => Err(
            RustcPullErrorV::PullFailed(SyncErrorV { kind, message }),
        ),
    }
}

/// Enter the rollback: order a hard reset to the pre-pull HEAD and remember
/// the result to deliver afterwards.
pub open spec fn rollback_v(m: PullMachineV, p: PendingOutcomeV) -> (PullMachineV, PullActionV) {
    (
        PullMachineV { phase: PullPhase::RollingBack, pending: Some(p), ..m },
        PullActionV::ResetHard { sha: m.orig_head },
    )
}

pub open spec fn fail_now_v(m: PullMachineV, kind: SyncErrorKind, msg: Seq<char>) -> (
    PullMachineV,
    PullActionV,
) {
    (PullMachineV { phase: PullPhase::Finished, ..m }, pull_fail_v(kind, msg))
}

pub open spec fn rollback_fail_v(m: PullMachineV, kind: SyncErrorKind, msg: Seq<char>) -> (
    PullMachineV,
    PullActionV,
) {
    rollback_v(m, PendingOutcomeV::Failed { kind, message: msg })
}

/// Leave the post-pull loop or move to its next operation.
pub open spec fn advance_post_op_v(m: PullMachineV) -> (PullMachineV, PullActionV) {
    if m.post_op_index + 1 < m.config.post_pull.len() {
        (
            PullMachineV {
                phase: PullPhase::CapturingPostOpHead,
                post_op_index: m.post_op_index + 1,
                ..m
            },
            PullActionV::CaptureHead,
        )
    } else {
        (
            PullMachineV { phase: PullPhase::CountingRootsAfter, guard_armed: false, ..m },
            PullActionV::CountRoots,
        )
    }
}

/// Whether a captured root count is usable: the command succeeded and printed
/// a decimal number that fits.
pub open spec fn root_count_ok(ok: bool, output: Seq<char>) -> bool {
    ok && output.len() > 0 && all_digits(output) && dec_val(output) <= u32::MAX as nat
}

/// The transition function of the pull machine: from a state and the outcome
/// of the awaited action to the next state and the next action.
pub open spec fn pull_step_spec(m: PullMachineV, ev: PullEventV) -> (PullMachineV, PullActionV) {
    match ev {
        PullEventV::Proxy(p) => {
            if m.phase == PullPhase::StartingProxy {
                match p {
                    None => rollback_fail_v(m, SyncErrorKind::ProxyStartFailed,
                        "cannot start josh-proxy"@),
                    Some(port) => (
                        PullMachineV { phase: PullPhase::Fetching, ..m },
                        PullActionV::FetchUpstream {
                            url: josh_url_spec(port as nat, m.upstream_repo,
                                Some(m.upstream_sha), m.config.filter_expr()),
                        },
                    ),
                }
            } else {
                (m, arbitrary())
            }
        },
        PullEventV::Cmd { ok, output } => match m.phase {
            PullPhase::ResolvingTarget => {
                if !ok {
                    fail_now_v(m, SyncErrorKind::ResolveFailed, "cannot fetch upstream commit"@)
                } else if !has_token(output) {
                    fail_now_v(m, SyncErrorKind::ResolveFailed,
                        "could not obtain upstream HEAD from remote"@)
                } else {
                    (
                        PullMachineV {
                            phase: PullPhase::CheckingClean,
                            upstream_sha: token_of(output),
                            ..m
                        },
                        PullActionV::CheckStatus,
                    )
                }
            },
            PullPhase::CheckingClean => {
                if !ok {
                    fail_now_v(m, SyncErrorKind::PreflightFailed,
                        "cannot figure out if git state is clean"@)
                } else if output.len() > 0 {
                    fail_now_v(m, SyncErrorKind::DirtyWorkTree,
                        "working directory must be clean"@)
                } else if m.last_upstream_sha == Some(m.upstream_sha) {
                    (
                        PullMachineV { phase: PullPhase::Finished, ..m },
                        PullActionV::Finish { result: Err(RustcPullErrorV::NothingToPull) },
                    )
                } else {
                    (PullMachineV { phase: PullPhase::CapturingHead, ..m }, PullActionV::CaptureHead)
                }
            },
            PullPhase::CapturingHead => {
                if !ok {
                    fail_now_v(m, SyncErrorKind::HeadResolveFailed, "failed to get current commit"@)
                } else {
                    (
                        PullMachineV {
                            phase: PullPhase::CommittingMarker,
                            orig_head: output,
                            ..m
                        },
                        PullActionV::CommitMarker {
                            path: m.marker_path,
                            contents: m.upstream_sha + "\n"@,
                            message: prep_message_spec(m.upstream_repo, m.upstream_sha),
                        },
                    )
                }
            },
            PullPhase::CommittingMarker => {
                if !ok {
                    fail_now_v(m, SyncErrorKind::MarkerCommitFailed,
                        "cannot create preparation commit"@)
                } else {
                    (
                        PullMachineV {
                            phase: PullPhase::StartingProxy,
                            guard_armed: true,
                            ..m
                        },
                        PullActionV::StartProxy,
                    )
                }
            },
            PullPhase::StartingProxy => (m, arbitrary()),
            PullPhase::Fetching => {
                if !ok {
                    rollback_fail_v(m, SyncErrorKind::FetchFailed,
                        "cannot fetch git state through Josh"@)
                } else {
                    (
                        PullMachineV { phase: PullPhase::CountingRootsBefore, ..m },
                        PullActionV::CountRoots,
                    )
                }
            },
            PullPhase::CountingRootsBefore => {
                if !root_count_ok(ok, output) {
                    rollback_fail_v(m, SyncErrorKind::RootCountFailed,
                        "failed to determine the number of root commits"@)
                } else {
                    (
                        PullMachineV {
                            phase: PullPhase::CapturingPreMergeHead,
                            roots_before: dec_val(output) as u32,
                            ..m
                        },
                        PullActionV::CaptureHead,
                    )
                }
            },
            PullPhase::CapturingPreMergeHead => {
                if !ok {
                    rollback_fail_v(m, SyncErrorKind::HeadResolveFailed,
                        "failed to get current commit"@)
                } else {
                    (
                        PullMachineV {
                            phase: PullPhase::ResolvingIncomingRef,
                            sha_pre_merge: output,
                            ..m
                        },
                        PullActionV::ResolveFetchHead,
                    )
                }
            },
            PullPhase::ResolvingIncomingRef => {
                if !ok {
                    rollback_fail_v(m, SyncErrorKind::HeadResolveFailed,
                        "cannot resolve FETCH_HEAD"@)
                } else {
                    (
                        PullMachineV {
                            phase: PullPhase::Merging,
                            incoming_ref: output,
                            merge_message: merge_message_spec(m.upstream_repo, m.upstream_sha,
                                output, m.prev_sha()),
                            ..m
                        },
                        PullActionV::MergeFetched {
                            message: merge_message_spec(m.upstream_repo, m.upstream_sha, output,
                                m.prev_sha()),
                        },
                    )
                }
            },
            PullPhase::Merging => {
                if !ok {
                    // A failed merge (most likely conflicts) is deliberately
                    // left in place for manual resolution: disarm, no reset.
                    (
                        PullMachineV {
                            phase: PullPhase::Finished,
                            guard_armed: false,
                            ..m
                        },
                        pull_fail_v(SyncErrorKind::MergeFailed,
                            "FAILED to merge new commits, something went wrong"@),
                    )
                } else {
                    (
                        PullMachineV { phase: PullPhase::CapturingMergedHead, ..m },
                        PullActionV::CaptureHead,
                    )
                }
            },
            PullPhase::CapturingMergedHead => {
                if !ok {
                    rollback_fail_v(m, SyncErrorKind::HeadResolveFailed,
                        "failed to get current commit"@)
                } else if output == m.sha_pre_merge && !m.allow_noop {
                    // No merge commit was created: nothing to pull.
                    rollback_v(m, PendingOutcomeV::NothingToPull)
                } else {
                    (
                        PullMachineV { phase: PullPhase::CheckingNoopDiff, ..m },
                        PullActionV::DiffAgainst { sha: m.sha_pre_merge },
                    )
                }
            },
            PullPhase::CheckingNoopDiff => {
                if ok && !m.allow_noop {
                    // A merge commit exists but its content diff is empty:
                    // nothing to pull.
                    rollback_v(m, PendingOutcomeV::NothingToPull)
                } else if m.config.post_pull.len() > 0 {
                    (
                        PullMachineV {
                            phase: PullPhase::CapturingPostOpHead,
                            post_op_index: 0,
                            ..m
                        },
                        PullActionV::CaptureHead,
                    )
                } else {
                    (
                        PullMachineV {
                            phase: PullPhase::CountingRootsAfter,
                            guard_armed: false,
                            ..m
                        },
                        PullActionV::CountRoots,
                    )
                }
            },
            PullPhase::CapturingPostOpHead => {
                if !ok {
                    rollback_fail_v(m, SyncErrorKind::HeadResolveFailed,
                        "failed to get current commit"@)
                } else {
                    (
                        PullMachineV {
                            phase: PullPhase::RunningPostOp,
                            post_op_head: output,
                            ..m
                        },
                        PullActionV::RunPostOp { index: m.post_op_index },
                    )
                }
            },
            PullPhase::RunningPostOp => {
                if !ok {
                    rollback_fail_v(m, SyncErrorKind::PostOpFailed,
                        "cannot run post-pull operation"@)
                } else {
                    (
                        PullMachineV { phase: PullPhase::CheckingPostOpDiff, ..m },
                        PullActionV::DiffAgainst { sha: m.post_op_head },
                    )
                }
            },
            PullPhase::CheckingPostOpDiff => {
                if ok {
                    // The operation changed nothing: no commit.
                    advance_post_op_v(m)
                } else {
                    (
                        PullMachineV { phase: PullPhase::CommittingPostOp, ..m },
                        PullActionV::CommitPostOp {
                            message: m.config.post_pull[m.post_op_index].commit_message,
                        },
                    )
                }
            },
            PullPhase::CommittingPostOp => {
                if !ok {
                    rollback_fail_v(m, SyncErrorKind::PostOpFailed,
                        "cannot commit post-pull changes"@)
                } else {
                    advance_post_op_v(m)
                }
            },
            PullPhase::CountingRootsAfter => {
                if !root_count_ok(ok, output) {
                    fail_now_v(m, SyncErrorKind::RootCountFailed,
                        "failed to determine the number of root commits"@)
                } else if dec_val(output) == m.roots_before as nat {
                    (
                        PullMachineV { phase: PullPhase::Finished, ..m },
                        PullActionV::Finish {
                            result: Ok(PullResultV { merge_commit_message: m.merge_message }),
                        },
                    )
                } else {
                    fail_now_v(m, SyncErrorKind::RootInvariantViolated,
                        "Josh created a new root commit. This is probably not the history you want."@)
                }
            },
            PullPhase::RollingBack => {
                if !ok {
                    fail_now_v(m, SyncErrorKind::RollbackFailed, "cannot reset current branch"@)
                } else {
                    (
                        PullMachineV { phase: PullPhase::Finished, ..m },
                        PullActionV::Finish { result: pending_result_v(m.pending->Some_0) },
                    )
                }
            },
            PullPhase::Finished => (m, arbitrary()),
        },
    }
}

impl PullMachine {
    fn fail_now(&mut self, kind: SyncErrorKind, msg: &str) -> (act: PullAction)
        ensures
            (final(self)@, act@) == fail_now_v(old(self)@, kind, msg@),
    {
        self.phase = PullPhase::Finished;
        let act = PullAction::Finish {
            result: Err(RustcPullError::PullFailed(SyncError { kind, message: msg.to_owned() })),
        };
        proof {
            assert(self@ =~= fail_now_v(old(self)@, kind, msg@).0);
            assert(act@ =~= fail_now_v(old(self)@, kind, msg@).1);
        }
        act
    }

    fn begin_rollback(&mut self, p: PendingOutcome) -> (act: PullAction)
        ensures
            (final(self)@, act@) == rollback_v(old(self)@, p@),
    {
        self.phase = PullPhase::RollingBack;
        let sha = self.orig_head.clone();
        self.pending = Some(p);
        let act = PullAction::ResetHard { sha };
        proof {
            assert(self@ =~= rollback_v(old(self)@, p@).0);
            assert(act@ =~= rollback_v(old(self)@, p@).1);
        }
        act
    }

    fn rollback_fail(&mut self, kind: SyncErrorKind, msg: &str) -> (act: PullAction)
        ensures
            (final(self)@, act@) == rollback_fail_v(old(self)@, kind, msg@),
    {
        self.begin_rollback(PendingOutcome::Failed { kind, message: msg.to_owned() })
    }

    fn advance_post_op(&mut self) -> (act: PullAction)
        requires
            0 <= old(self).post_op_index < old(self)@.config.post_pull.len(),
        ensures
            (final(self)@, act@) == advance_post_op_v(old(self)@),
    {
        let n = self.config.post_pull.len();
        proof {
            assert(self@.config.post_pull.len() == self.config.post_pull@.len());
            assert(self.post_op_index < n);
        }
        if self.post_op_index < n - 1 {
            self.post_op_index = self.post_op_index + 1;
            self.phase = PullPhase::CapturingPostOpHead;
            proof {
                assert(self@ =~= advance_post_op_v(old(self)@).0);
            }
            PullAction::CaptureHead
        } else {
            self.guard_armed = false;
            self.phase = PullPhase::CountingRootsAfter;
            proof {
                assert(self@ =~= advance_post_op_v(old(self)@).0);
            }
            PullAction::CountRoots
        }
    }

    /// Feeds the outcome of the awaited action into the machine and returns
    /// what the driver must do next. The machine follows `pull_step_spec`
    /// exactly.
    pub fn step(&mut self, ev: PullEvent) -> (act: PullAction)
        requires
            old(self)@.wf(),
            old(self).phase != PullPhase::Finished,
            (old(self).phase == PullPhase::StartingProxy) <==> (ev matches PullEvent::Proxy(_)),
        ensures
            (final(self)@, act@) == pull_step_spec(old(self)@, ev@),
            final(self)@.wf(),
    {
        match ev {
            PullEvent::Proxy(p) => {
                match p {
                    None => self.rollback_fail(SyncErrorKind::ProxyStartFailed,
                        "cannot start josh-proxy"),
                    Some(port) => {
                        let filter = self.config.construct_josh_filter();
                        let url = josh_git_url(port, self.upstream_repo.as_str(),
                            Some(self.upstream_sha.as_str()), filter.as_str());
                        self.phase = PullPhase::Fetching;
                        let act = PullAction::FetchUpstream { url };
                        proof {
                            assert(self@ =~= pull_step_spec(old(self)@, ev@).0);
                            assert(act@ =~= pull_step_spec(old(self)@, ev@).1);
                        }
                        act
                    },
                }
            },
            PullEvent::Cmd(o) => {
                let CmdOutcome { ok, output } = o;
                match self.phase {
                    PullPhase::ResolvingTarget => {
                        if !ok {
                            self.fail_now(SyncErrorKind::ResolveFailed,
                                "cannot fetch upstream commit")
                        } else {
                            match first_token(output.as_str()) {
                                None => self.fail_now(SyncErrorKind::ResolveFailed,
                                    "could not obtain upstream HEAD from remote"),
                                Some(tok) => {
                                    self.upstream_sha = tok;
                                    self.phase = PullPhase::CheckingClean;
                                    proof {
                                        assert(self@ =~= pull_step_spec(old(self)@, ev@).0);
                                    }
                                    PullAction::CheckStatus
                                },
                            }
                        }
                    },
                    PullPhase::CheckingClean => {
                        if !ok {
                            self.fail_now(SyncErrorKind::PreflightFailed,
                                "cannot figure out if git state is clean")
                        } else if let Err(e) = ensure_clean_git_state(output.as_str()) {
                            self.phase = PullPhase::Finished;
                            let act = PullAction::Finish {
                                result: Err(RustcPullError::PullFailed(e)),
                            };
                            proof {
                                assert(self@ =~= pull_step_spec(old(self)@, ev@).0);
                                assert(act@ =~= pull_step_spec(old(self)@, ev@).1);
                            }
                            act
                        } else {
                            let same = match &self.last_upstream_sha {
                                Some(prev) => prev.eq(&self.upstream_sha),
                                None => false,
                            };
                            if same {
                                self.phase = PullPhase::Finished;
                                proof {
                                    assert(self@ =~= pull_step_spec(old(self)@, ev@).0);
                                }
                                PullAction::Finish { result: Err(RustcPullError::NothingToPull) }
                            } else {
                                self.phase = PullPhase::CapturingHead;
                                proof {
                                    assert(old(self)@.last_upstream_sha
                                        != Some(old(self)@.upstream_sha));
                                    assert(self@ =~= pull_step_spec(old(self)@, ev@).0);
                                }
                                PullAction::CaptureHead
                            }
                        }
                    },
                    PullPhase::CapturingHead => {
                        if !ok {
                            self.fail_now(SyncErrorKind::HeadResolveFailed,
                                "failed to get current commit")
                        } else {
                            self.orig_head = output;
                            let path = self.marker_path.clone();
                            let mut contents = self.upstream_sha.clone();
                            contents.append("\n");
                            let message = prep_message(self.upstream_repo.as_str(),
                                self.upstream_sha.as_str());
                            self.phase = PullPhase::CommittingMarker;
                            let act = PullAction::CommitMarker { path, contents, message };
                            proof {
                                assert(self@ =~= pull_step_spec(old(self)@, ev@).0);
                                assert(act@ =~= pull_step_spec(old(self)@, ev@).1);
                            }
                            act
                        }
                    },
                    PullPhase::CommittingMarker => {
                        if !ok {
                            self.fail_now(SyncErrorKind::MarkerCommitFailed,
                                "cannot create preparation commit")
                        } else {
                            self.guard_armed = true;
                            self.phase = PullPhase::StartingProxy;
                            proof {
                                assert(self@ =~= pull_step_spec(old(self)@, ev@).0);
                            }
                            PullAction::StartProxy
                        }
                    },
                    PullPhase::StartingProxy => unreached(),
                    PullPhase::Fetching => {
                        if !ok {
                            self.rollback_fail(SyncErrorKind::FetchFailed,
                                "cannot fetch git state through Josh")
                        } else {
                            self.phase = PullPhase::CountingRootsBefore;
                            proof {
                                assert(self@ =~= pull_step_spec(old(self)@, ev@).0);
                            }
                            PullAction::CountRoots
                        }
                    },
                    PullPhase::CountingRootsBefore => {
                        if !ok {
                            self.rollback_fail(SyncErrorKind::RootCountFailed,
                                "failed to determine the number of root commits")
                        } else {
                            match parse_u32(output.as_str()) {
                                None => self.rollback_fail(SyncErrorKind::RootCountFailed,
                                    "failed to determine the number of root commits"),
                                Some(n) => {
                                    self.roots_before = n;
                                    self.phase = PullPhase::CapturingPreMergeHead;
                                    proof {
                                        assert(self@ =~= pull_step_spec(old(self)@, ev@).0);
                                    }
                                    PullAction::CaptureHead
                                },
                            }
                        }
                    },
                    PullPhase::CapturingPreMergeHead => {
                        if !ok {
                            self.rollback_fail(SyncErrorKind::HeadResolveFailed,
                                "failed to get current commit")
                        } else {
                            self.sha_pre_merge = output;
                            self.phase = PullPhase::ResolvingIncomingRef;
                            proof {
                                assert(self@ =~= pull_step_spec(old(self)@, ev@).0);
                            }
                            PullAction::ResolveFetchHead
                        }
                    },
                    PullPhase::ResolvingIncomingRef => {
                        if !ok {
                            self.rollback_fail(SyncErrorKind::HeadResolveFailed,
                                "cannot resolve FETCH_HEAD")
                        } else {
                            self.incoming_ref = output;
                            let msg = match &self.last_upstream_sha {
                                Some(prev) => merge_message(self.upstream_repo.as_str(),
                                    self.upstream_sha.as_str(), self.incoming_ref.as_str(),
                                    prev.as_str()),
                                None => merge_message(self.upstream_repo.as_str(),
                                    self.upstream_sha.as_str(), self.incoming_ref.as_str(),
                                    self.upstream_sha.as_str()),
                            };
                            self.merge_message = msg.clone();
                            self.phase = PullPhase::Merging;
                            let act = PullAction::MergeFetched { message: msg };
                            proof {
                                assert(self@ =~= pull_step_spec(old(self)@, ev@).0);
                                assert(act@ =~= pull_step_spec(old(self)@, ev@).1);
                            }
                            act
                        }
                    },
                    PullPhase::Merging => {
                        if !ok {
                            self.guard_armed = false;
                            self.fail_now(SyncErrorKind::MergeFailed,
                                "FAILED to merge new commits, something went wrong")
                        } else {
                            self.phase = PullPhase::CapturingMergedHead;
                            proof {
                                assert(self@ =~= pull_step_spec(old(self)@, ev@).0);
                            }
                            PullAction::CaptureHead
                        }
                    },
                    PullPhase::CapturingMergedHead => {
                        if !ok {
                            self.rollback_fail(SyncErrorKind::HeadResolveFailed,
                                "failed to get current commit")
                        } else if output == self.sha_pre_merge && !self.allow_noop {
                            self.begin_rollback(PendingOutcome::NothingToPull)
                        } else {
                            self.phase = PullPhase::CheckingNoopDiff;
                            let act = PullAction::DiffAgainst { sha: self.sha_pre_merge.clone() };
                            proof {
                                assert(self@ =~= pull_step_spec(old(self)@, ev@).0);
                                assert(act@ =~= pull_step_spec(old(self)@, ev@).1);
                            }
                            act
                        }
                    },
                    PullPhase::CheckingNoopDiff => {
                        if ok && !self.allow_noop {
                            self.begin_rollback(PendingOutcome::NothingToPull)
                        } else if self.config.post_pull.len() > 0 {
                            self.post_op_index = 0;
                            self.phase = PullPhase::CapturingPostOpHead;
                            proof {
                                assert(self@ =~= pull_step_spec(old(self)@, ev@).0);
                            }
                            PullAction::CaptureHead
                        } else {
                            self.guard_armed = false;
                            self.phase = PullPhase::CountingRootsAfter;
                            proof {
                                assert(self@ =~= pull_step_spec(old(self)@, ev@).0);
                            }
                            PullAction::CountRoots
                        }
                    },
                    PullPhase::CapturingPostOpHead => {
                        if !ok {
                            self.rollback_fail(SyncErrorKind::HeadResolveFailed,
                                "failed to get current commit")
                        } else {
                            self.post_op_head = output;
                            self.phase = PullPhase::RunningPostOp;
                            proof {
                                assert(self@ =~= pull_step_spec(old(self)@, ev@).0);
                            }
                            PullAction::RunPostOp { index: self.post_op_index }
                        }
                    },
                    PullPhase::RunningPostOp => {
                        if !ok {
                            self.rollback_fail(SyncErrorKind::PostOpFailed,
                                "cannot run post-pull operation")
                        } else {
                            self.phase = PullPhase::CheckingPostOpDiff;
                            let act = PullAction::DiffAgainst { sha: self.post_op_head.clone() };
                            proof {
                                assert(self@ =~= pull_step_spec(old(self)@, ev@).0);
                                assert(act@ =~= pull_step_spec(old(self)@, ev@).1);
                            }
                            act
                        }
                    },
                    PullPhase::CheckingPostOpDiff => {
                        if ok {
                            self.advance_post_op()
                        } else {
                            let msg = self.config.post_pull[self.post_op_index]
                                .commit_message
                                .clone();
                            self.phase = PullPhase::CommittingPostOp;
                            let act = PullAction::CommitPostOp { message: msg };
                            proof {
                                assert(self@ =~= pull_step_spec(old(self)@, ev@).0);
                                assert(act@ =~= pull_step_spec(old(self)@, ev@).1);
                            }
                            act
                        }
                    },
                    PullPhase::CommittingPostOp => {
                        if !ok {
                            self.rollback_fail(SyncErrorKind::PostOpFailed,
                                "cannot commit post-pull changes")
                        } else {
                            self.advance_post_op()
                        }
                    },
                    PullPhase::CountingRootsAfter => {
                        if !ok {
                            self.fail_now(SyncErrorKind::RootCountFailed,
                                "failed to determine the number of root commits")
                        } else {
                            match parse_u32(output.as_str()) {
                                None => self.fail_now(SyncErrorKind::RootCountFailed,
                                    "failed to determine the number of root commits"),
                                Some(n) => {
                                    if n == self.roots_before {
                                        self.phase = PullPhase::Finished;
                                        let act = PullAction::Finish {
                                            result: Ok(PullResult {
                                                merge_commit_message: self.merge_message.clone(),
                                            }),
                                        };
                                        proof {
                                            assert(self@ =~= pull_step_spec(old(self)@, ev@).0);
                                            assert(act@ =~= pull_step_spec(old(self)@, ev@).1);
                                        }
                                        act
                                    } else {
                                        self.fail_now(SyncErrorKind::RootInvariantViolated,
                                            "Josh created a new root commit. This is probably not the history you want.")
                                    }
                                },
                            }
                        }
                    },
                    PullPhase::RollingBack => {
                        if !ok {
                            self.fail_now(SyncErrorKind::RollbackFailed,
                                "cannot reset current branch")
                        } else {
                            let result = match &self.pending {
                                Some(PendingOutcome::NothingToPull) => Err(
                                    RustcPullError::NothingToPull,
                                ),
                                Some(PendingOutcome::Failed { kind, message }) => Err(
                                    RustcPullError::PullFailed(SyncError {
                                        kind: *kind,
                                        message: message.clone(),
                                    }),
                                ),
                                None => unreached(),
                            };
                            self.phase = PullPhase::Finished;
                            let act = PullAction::Finish { result };
                            proof {
                                assert(self@ =~= pull_step_spec(old(self)@, ev@).0);
                                assert(act@ =~= pull_step_spec(old(self)@, ev@).1);
                            }
                            act
                        }
                    },
                    PullPhase::Finished => unreached(),
                }
            },
        }
    }
}

/// The machine a pull starts in, and the first action of its driver: resolving
/// the upstream head, or the preflight check when the target commit was
/// supplied explicitly.
pub open spec fn pull_init_spec(
    config: JoshConfigV,
    last_upstream_sha: Option<Seq<char>>,
    marker_path: Seq<char>,
    upstream_repo: Seq<char>,
    upstream_commit: Option<Seq<char>>,
    allow_noop: bool,
) -> (PullMachineV, PullActionV) {
    let m = PullMachineV {
        phase: if upstream_commit is Some {
            PullPhase::CheckingClean
        } else {
            PullPhase::ResolvingTarget
        },
        upstream_repo: upstream_repo,
        allow_noop: allow_noop,
        config: config,
        last_upstream_sha: last_upstream_sha,
        marker_path: marker_path,
        upstream_sha: match upstream_commit {
            Some(sha) => sha,
            None => Seq::empty(),
        },
        orig_head: Seq::empty(),
        sha_pre_merge: Seq::empty(),
        incoming_ref: Seq::empty(),
        merge_message: Seq::empty(),
        roots_before: 0,
        guard_armed: false,
        post_op_index: 0,
        post_op_head: Seq::empty(),
        pending: None,
    };
    let act = if upstream_commit is Some {
        PullActionV::CheckStatus
    } else {
        PullActionV::LsRemote { url: "https://github.com/"@ + upstream_repo }
    };
    (m, act)
}

/// Idempotence of pull: at the clean-tree check — before any mutating action
/// has been ordered — the machine stops with the distinguished "nothing to
/// pull" outcome exactly when the stored marker equals the resolved upstream
/// target. Together with `lemma_marker_round_trip`, a pull performed right
/// after a successful pull of the same upstream head reports "nothing to
/// pull"; so does a first pull whose stored marker already equals the
/// upstream head.
pub proof fn lemma_pull_idempotent(m: PullMachineV, output: Seq<char>)
    requires
        m.phase == PullPhase::CheckingClean,
        output.len() == 0,
    ensures
        ({
            let (m2, act) = pull_step_spec(m, PullEventV::Cmd { ok: true, output });
            &&& ((act == PullActionV::Finish {
                result: Err(RustcPullErrorV::NothingToPull),
            }) <==> m.last_upstream_sha == Some(m.upstream_sha))
            &&& (m.last_upstream_sha == Some(m.upstream_sha) ==> m2.phase == PullPhase::Finished)
        }),
{
}

/// Nothing is mutated before the marker commit: while the machine is still
/// resolving the upstream target or checking that the tree is clean, it only
/// ever orders read-only commands, or finishes.
pub proof fn lemma_read_only_before_marker(m: PullMachineV, ok: bool, output: Seq<char>)
    requires
        m.phase == PullPhase::ResolvingTarget || m.phase == PullPhase::CheckingClean,
    ensures
        ({
            let act = pull_step_spec(m, PullEventV::Cmd { ok, output }).1;
            ||| act matches PullActionV::CheckStatus
            ||| act matches PullActionV::CaptureHead
            ||| act matches PullActionV::Finish { .. }
        }),
{
}

/// The only reset the machine ever orders is to the HEAD captured before any
/// mutation: whatever the phase and whatever the outcome, a `ResetHard`
/// action targets `orig_head`.
pub proof fn lemma_reset_targets_original_head(m: PullMachineV, ev: PullEventV)
    requires
        m.phase != PullPhase::Finished,
        (m.phase == PullPhase::StartingProxy) <==> (ev matches PullEventV::Proxy(_)),
    ensures
        ({
            let act = pull_step_spec(m, ev).1;
            act matches PullActionV::ResetHard { sha } ==> sha == m.orig_head
        }),
{
}

/// The marker committed by a pull records exactly the pulled target: the file
/// holds the target SHA followed by one newline, and reading the first token
/// of that file yields the target again — so the next run starts with the
/// marker equal to the SHA it just pulled.
pub proof fn lemma_marker_round_trip(sha: Seq<char>)
    requires
        sha.len() > 0,
        forall|k: int| 0 <= k < sha.len() ==> !crate::text::is_ws(#[trigger] sha[k]),
    ensures
        has_token(sha + "\n"@),
        token_of(sha + "\n"@) == sha,
{
    let s = sha + "\n"@;
    reveal_strlit("\n");
    assert(forall|k: int| 0 <= k < sha.len() ==> !crate::text::is_ws(#[trigger] s[k]));
    crate::text::lemma_skip_ws_at(s, 0);
    assert(skip_ws(s) == s.subrange(0, s.len() as int));
    assert(s.subrange(0, s.len() as int) =~= s);
    assert(crate::text::is_ws(s[sha.len() as int]));
    crate::text::lemma_take_tok_at(s, sha.len() as int);
    assert(s.subrange(0, sha.len() as int) =~= sha);
}

/// Root-commit invariant: at the final root count the pull succeeds exactly
/// when the count equals the one captured before the merge; a well-formed
/// count that differs is reported as a fatal integrity violation, never as
/// success and never as "nothing to pull".
pub proof fn lemma_root_invariant(m: PullMachineV, ok: bool, output: Seq<char>)
    requires
        m.phase == PullPhase::CountingRootsAfter,
    ensures
        ({
            let (m2, act) = pull_step_spec(m, PullEventV::Cmd { ok, output });
            &&& ((act matches PullActionV::Finish { result } && result is Ok) <==> (root_count_ok(
                ok,
                output,
            ) && dec_val(output) == m.roots_before as nat))
            &&& (root_count_ok(ok, output) && dec_val(output) != m.roots_before as nat ==> act
                == pull_fail_v(SyncErrorKind::RootInvariantViolated,
                "Josh created a new root commit. This is probably not the history you want."@))
        }),
{
}

/// Rollback correctness: when the fetch fails after the marker commit was
/// created, the machine orders a hard reset to exactly the HEAD captured
/// before any mutation, and once the reset completes the run ends with the
/// fetch failure — so HEAD after the failed pull equals HEAD before it.
pub proof fn lemma_fetch_failure_rolls_back(
    m: PullMachineV,
    output: Seq<char>,
    reset_output: Seq<char>,
)
    requires
        m.phase == PullPhase::Fetching,
    ensures
        ({
            let (m2, act) = pull_step_spec(m, PullEventV::Cmd { ok: false, output });
            &&& act == PullActionV::ResetHard { sha: m.orig_head }
            &&& m2.phase == PullPhase::RollingBack
            &&& ({
                let (m3, act2) = pull_step_spec(m2, PullEventV::Cmd {
                    ok: true,
                    output: reset_output,
                });
                &&& act2 == pull_fail_v(SyncErrorKind::FetchFailed,
                    "cannot fetch git state through Josh"@)
                &&& m3.phase == PullPhase::Finished
            })
        }),
{
}

/// Conflict non-reversion: a failed merge finishes the run at once with a
/// pull failure distinct from "nothing to pull", disarms the guard and orders
/// no reset: the conflicted state is deliberately left in place for manual
/// resolution.
pub proof fn lemma_merge_conflict_left_in_place(m: PullMachineV, output: Seq<char>)
    requires
        m.phase == PullPhase::Merging,
    ensures
        ({
            let (m2, act) = pull_step_spec(m, PullEventV::Cmd { ok: false, output });
            &&& act == pull_fail_v(SyncErrorKind::MergeFailed,
                "FAILED to merge new commits, something went wrong"@)
            &&& !(act matches PullActionV::ResetHard { .. })
            &&& act != (PullActionV::Finish { result: Err(RustcPullErrorV::NothingToPull) })
            &&& m2.phase == PullPhase::Finished
            &&& !m2.guard_armed
        }),
{
}

impl GitSync {
    /// Begins a pull of `upstream_repo`, of the given commit or of the remote
    /// head. Returns the machine and the first action for the driver.
    pub fn start_pull(
        &self,
        upstream_repo: String,
        upstream_commit: Option<String>,
        allow_noop: bool,
    ) -> (r: (PullMachine, PullAction))
        requires
            self.context@.wf(),
        ensures
            (r.0@, r.1@) == pull_init_spec(self.context@.config,
                self.context@.last_upstream_sha, self.context@.last_upstream_sha_path,
                upstream_repo@, upstream_commit.deep_view(), allow_noop),
            r.0@.wf(),
    {
        let ghost spec_r = pull_init_spec(self.context@.config, self.context@.last_upstream_sha,
            self.context@.last_upstream_sha_path, upstream_repo@, upstream_commit.deep_view(),
            allow_noop);
        let (phase, upstream_sha, act) = match upstream_commit {
            Some(sha) => (PullPhase::CheckingClean, sha, PullAction::CheckStatus),
            None => {
                let mut url = String::from_str("https://github.com/");
                url.append(upstream_repo.as_str());
                (PullPhase::ResolvingTarget, String::new(), PullAction::LsRemote { url })
            },
        };
        let m = PullMachine {
            phase,
            upstream_repo,
            allow_noop,
            config: self.context.config.clone(),
            last_upstream_sha: match &self.context.last_upstream_sha {
                Some(s) => Some(s.clone()),
                None => None,
            },
            marker_path: self.context.last_upstream_sha_path.clone(),
            upstream_sha,
            orig_head: String::new(),
            sha_pre_merge: String::new(),
            incoming_ref: String::new(),
            merge_message: String::new(),
            roots_before: 0,
            guard_armed: false,
            post_op_index: 0,
            post_op_head: String::new(),
            pending: None,
        };
        proof {
            assert(m@ =~= spec_r.0);
            assert(act@ =~= spec_r.1);
        }
        (m, act)
    }
}

} // verus!

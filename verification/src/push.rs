//! The push orchestrator: prepares a full upstream checkout as a staging
//! area, pushes the recorded synchronization base and then the filtered local
//! history to a contributor's fork through the proxy, and verifies that the
//! push round-trips. As with the pull, the driver performs the I/O and this
//! machine, verified against `push_step_spec`, makes every decision.

use vstd::prelude::*;

verus! {

use vstd::pervasive::unreached;
use crate::config::{JoshConfig, JoshConfigV};
use crate::josh::josh_url_spec;
use crate::josh::josh_git_url;
use crate::sync::{CmdOutcome, GitSync, SyncError, SyncErrorKind, SyncErrorV,
    ensure_clean_git_state};

/// Where in the push sequence the machine stands; each phase names the action
/// whose outcome it awaits.
#[derive(Clone, Copy, Debug, PartialEq, Eq, Structural)]
pub enum PushPhase {
    /// Awaiting the porcelain status output of the working tree.
    CheckingClean,
    /// Awaiting the probe for a usable upstream checkout.
    ProbingCheckout,
    /// Awaiting the user's answer to the clone offer.
    PromptingClone,
    /// Awaiting the clone of the upstream checkout.
    CloningUpstream,
    /// Awaiting the filtering proxy's startup.
    StartingProxy,
    /// Awaiting the probe for the target branch on the fork; finding it is
    /// the failure case.
    CheckingBranchAbsent,
    /// Awaiting the fetch of the synchronization base from upstream.
    FetchingBase,
    /// Awaiting the push of the base commit to the fork branch.
    PushingBase,
    /// Awaiting the push of the filtered local history.
    PushingFiltered,
    /// Awaiting the fetch of the pushed branch back through the proxy.
    FetchingRoundtrip,
    /// Awaiting the local HEAD for the round-trip comparison.
    CapturingLocalHead,
    /// Awaiting the fetched-back commit for the round-trip comparison.
    CapturingFetchHead,
    /// The run is over; a result has been delivered.
    Finished,
}

/// What the driver must do next.
#[derive(Debug)]
pub enum PushAction {
    /// `git status --untracked-files=no --porcelain`, captured.
    CheckStatus,
    /// Report the checkout override from the environment, and whether the
    /// default checkout directory already holds a git repository.
    ProbeCheckout,
    /// Ask whether an upstream checkout may be cloned into `path`.
    PromptClone { path: String },
    /// `git clone --filter=blob:none <url> <path>`, streamed.
    CloneUpstream { url: String, path: String },
    /// Start the filtering proxy and report the port it listens on.
    StartProxy,
    /// `git fetch <url> <branch>` inside `checkout`.
    FetchBranch { checkout: String, url: String, branch: String },
    /// `git fetch <url> <sha>` inside `checkout`.
    FetchBase { checkout: String, url: String, sha: String },
    /// `git push <url> <refspec>` inside `checkout`.
    PushBase { checkout: String, url: String, refspec: String },
    /// `git push <url> <refspec>` in the current repository.
    PushFiltered { url: String, refspec: String },
    /// `git fetch <url> <branch>` in the current repository.
    FetchRoundtrip { url: String, branch: String },
    /// `git rev-parse HEAD`, captured.
    CaptureHead,
    /// `git rev-parse FETCH_HEAD`, captured.
    ResolveFetchHead,
    /// The run is over with this result; run nothing further.
    Finish { result: Result<(), SyncError> },
}

#[verifier::ext_equal]
pub enum PushActionV {
    CheckStatus,
    ProbeCheckout,
    PromptClone { path: Seq<char> },
    CloneUpstream { url: Seq<char>, path: Seq<char> },
    StartProxy,
    FetchBranch { checkout: Seq<char>, url: Seq<char>, branch: Seq<char> },
    FetchBase { checkout: Seq<char>, url: Seq<char>, sha: Seq<char> },
    PushBase { checkout: Seq<char>, url: Seq<char>, refspec: Seq<char> },
    PushFiltered { url: Seq<char>, refspec: Seq<char> },
    FetchRoundtrip { url: Seq<char>, branch: Seq<char> },
    CaptureHead,
    ResolveFetchHead,
    Finish { result: Result<(), SyncErrorV> },
}

impl View for PushAction {
    type V = PushActionV;

    open spec fn view(&self) -> PushActionV {
        match self {
            PushAction::CheckStatus => PushActionV::CheckStatus,
            PushAction::ProbeCheckout => PushActionV::ProbeCheckout,
            PushAction::PromptClone { path } => PushActionV::PromptClone { path: path@ },
            PushAction::CloneUpstream { url, path } => PushActionV::CloneUpstream {
                url: url@,
                path: path@,
            },
            PushAction::StartProxy => PushActionV::StartProxy,
            PushAction::FetchBranch { checkout, url, branch } => PushActionV::FetchBranch {
                checkout: checkout@,
                url: url@,
                branch: branch@,
            },
            PushAction::FetchBase { checkout, url, sha } => PushActionV::FetchBase {
                checkout: checkout@,
                url: url@,
                sha: sha@,
            },
            PushAction::PushBase { checkout, url, refspec } => PushActionV::PushBase {
                checkout: checkout@,
                url: url@,
                refspec: refspec@,
            },
            PushAction::PushFiltered { url, refspec } => PushActionV::PushFiltered {
                url: url@,
                refspec: refspec@,
            },
            PushAction::FetchRoundtrip { url, branch } => PushActionV::FetchRoundtrip {
                url: url@,
                branch: branch@,
            },
            PushAction::CaptureHead => PushActionV::CaptureHead,
            PushAction::ResolveFetchHead => PushActionV::ResolveFetchHead,
            PushAction::Finish { result } => PushActionV::Finish {
                result: match result {
                    Ok(u) => Ok(*u),
                    Err(e) => Err(e@),
                },
            },
        }
    }
}

/// What the driver reports back.
#[derive(Debug)]
pub enum PushEvent {
    /// The outcome of the command the last action asked for.
    Cmd(CmdOutcome),
    /// The proxy came up on this port, or failed to come up.
    Proxy(Option<u16>),
    /// The checkout probe: an override path from the environment, and whether
    /// the default directory already holds a git repository.
    Checkout { env_override: Option<String>, default_has_git: bool },
    /// The user's answer to the clone offer.
    Prompt(bool),
}

#[verifier::ext_equal]
pub enum PushEventV {
    Cmd { ok: bool, output: Seq<char> },
    Proxy(Option<u16>),
    Checkout { env_override: Option<Seq<char>>, default_has_git: bool },
    Prompt(bool),
}

impl View for PushEvent {
    type V = PushEventV;

    open spec fn view(&self) -> PushEventV {
        match self {
            PushEvent::Cmd(o) => PushEventV::Cmd { ok: o.ok, output: o.output@ },
            PushEvent::Proxy(p) => PushEventV::Proxy(*p),
            PushEvent::Checkout { env_override, default_has_git } => PushEventV::Checkout {
                env_override: env_override.deep_view(),
                default_has_git: *default_has_git,
            },
            PushEvent::Prompt(b) => PushEventV::Prompt(*b),
        }
    }
}

/// The default staging directory when no checkout is configured.
pub open spec fn default_checkout_spec() -> Seq<char> {
    "rustc-checkout"@
}

/// `https://github.com/<who>` — the plain URL of a repository.
pub open spec fn github_url_spec(who: Seq<char>) -> Seq<char> {
    "https://github.com/"@ + who
}

/// The fork of the upstream repository under the contributor's account.
pub open spec fn fork_name_spec(username: Seq<char>) -> Seq<char> {
    username + "/rust"@
}

/// The error reported when the target branch already exists on the fork.
pub open spec fn branch_exists_message_spec(branch: Seq<char>, fork_url: Seq<char>) -> Seq<char> {
    "The branch '"@ + branch + "' seems to already exist in '"@ + fork_url
        + "'. Please delete it and try again."@
}

/// The error reported when the pushed and fetched-back commits differ.
pub open spec fn roundtrip_mismatch_message_spec(head: Seq<char>, fetch_head: Seq<char>) -> Seq<
    char,
> {
    "Josh created a non-roundtrip push! Do NOT merge this into rustc!\nExpected "@ + head
        + ", got "@ + fetch_head + "."@
}

/// The push state machine.
pub struct PushMachine {
    pub phase: PushPhase,
    /// The GitHub account holding the fork that is pushed to.
    pub username: String,
    /// The branch created on the fork.
    pub branch: String,
    /// The synchronization base: the last pulled upstream SHA, or empty when
    /// no pull was ever recorded.
    pub base_sha: String,
    pub config: JoshConfig,
    /// The staging checkout of the full upstream history.
    pub checkout_path: String,
    /// `https://github.com/<username>/rust`.
    pub fork_url: String,
    /// The proxy URL of the filtered fork, once the proxy is up.
    pub josh_url: String,
    /// The local HEAD captured for the round-trip comparison.
    pub local_head: String,
}

#[verifier::ext_equal]
pub struct PushMachineV {
    pub phase: PushPhase,
    pub username: Seq<char>,
    pub branch: Seq<char>,
    pub base_sha: Seq<char>,
    pub config: JoshConfigV,
    pub checkout_path: Seq<char>,
    pub fork_url: Seq<char>,
    pub josh_url: Seq<char>,
    pub local_head: Seq<char>,
}

impl View for PushMachine {
    type V = PushMachineV;

    open spec fn view(&self) -> PushMachineV {
        PushMachineV {
            phase: self.phase,
            username: self.username@,
            branch: self.branch@,
            base_sha: self.base_sha@,
            config: self.config@,
            checkout_path: self.checkout_path@,
            fork_url: self.fork_url@,
            josh_url: self.josh_url@,
            local_head: self.local_head@,
        }
    }
}

impl PushMachineV {
    pub open spec fn wf(self) -> bool {
        self.config.wf()
    }

    /// Which event variant the current phase awaits.
    pub open spec fn expects(self, ev: PushEventV) -> bool {
        match self.phase {
            PushPhase::StartingProxy => ev matches PushEventV::Proxy(_),
            PushPhase::ProbingCheckout => ev matches PushEventV::Checkout { .. },
            PushPhase::PromptingClone => ev matches PushEventV::Prompt(_),
            PushPhase::Finished => false,
            _ => ev matches PushEventV::Cmd { .. },
        }
    }
}

/// A terminal failure action.
pub open spec fn push_fail_v(kind: SyncErrorKind, msg: Seq<char>) -> PushActionV {
    PushActionV::Finish { result: Err(SyncErrorV { kind, message: msg }) }
}

pub open spec fn push_fail_now_v(m: PushMachineV, kind: SyncErrorKind, msg: Seq<char>) -> (
    PushMachineV,
    PushActionV,
) {
    (PushMachineV { phase: PushPhase::Finished, ..m }, push_fail_v(kind, msg))
}

/// With a staging checkout at hand, start the proxy.
pub open spec fn checkout_ready_v(m: PushMachineV, path: Seq<char>) -> (PushMachineV, PushActionV) {
    (
        PushMachineV { phase: PushPhase::StartingProxy, checkout_path: path, ..m },
        PushActionV::StartProxy,
    )
}

/// The transition function of the push machine.
pub open spec fn push_step_spec(m: PushMachineV, ev: PushEventV) -> (PushMachineV, PushActionV) {
    match ev {
        PushEventV::Proxy(p) => {
            if m.phase == PushPhase::StartingProxy {
                match p {
                    None => push_fail_now_v(m, SyncErrorKind::ProxyStartFailed,
                        "cannot start josh-proxy"@),
                    Some(port) => {
                        let url = josh_url_spec(port as nat, fork_name_spec(m.username), None,
                            m.config.filter_expr());
                        (
                            PushMachineV {
                                phase: PushPhase::CheckingBranchAbsent,
                                josh_url: url,
                                ..m
                            },
                            PushActionV::FetchBranch {
                                checkout: m.checkout_path,
                                url: m.fork_url,
                                branch: m.branch,
                            },
                        )
                    },
                }
            } else {
                (m, arbitrary())
            }
        },
        PushEventV::Checkout { env_override, default_has_git } => {
            if m.phase == PushPhase::ProbingCheckout {
                match env_override {
                    Some(path) => checkout_ready_v(m, path),
                    None => {
                        if default_has_git {
                            checkout_ready_v(m, default_checkout_spec())
                        } else {
                            (
                                PushMachineV { phase: PushPhase::PromptingClone, ..m },
                                PushActionV::PromptClone { path: default_checkout_spec() },
                            )
                        }
                    },
                }
            } else {
                (m, arbitrary())
            }
        },
        PushEventV::Prompt(yes) => {
            if m.phase == PushPhase::PromptingClone {
                if yes {
                    (
                        PushMachineV { phase: PushPhase::CloningUpstream, ..m },
                        PushActionV::CloneUpstream {
                            url: github_url_spec("rust-lang/rust"@),
                            path: default_checkout_spec(),
                        },
                    )
                } else {
                    push_fail_now_v(m, SyncErrorKind::CheckoutMissing,
                        "cannot continue without a rustc checkout"@)
                }
            } else {
                (m, arbitrary())
            }
        },
        PushEventV::Cmd { ok, output } => match m.phase {
            PushPhase::CheckingClean => {
                if !ok {
                    push_fail_now_v(m, SyncErrorKind::PreflightFailed,
                        "cannot figure out if git state is clean"@)
                } else if output.len() > 0 {
                    push_fail_now_v(m, SyncErrorKind::DirtyWorkTree,
                        "working directory must be clean"@)
                } else {
                    (PushMachineV { phase: PushPhase::ProbingCheckout, ..m },
                        PushActionV::ProbeCheckout)
                }
            },
            PushPhase::CloningUpstream => {
                if !ok {
                    push_fail_now_v(m, SyncErrorKind::CheckoutCloneFailed, "cannot clone rustc"@)
                } else {
                    checkout_ready_v(m, default_checkout_spec())
                }
            },
            PushPhase::CheckingBranchAbsent => {
                if ok {
                    // The fetch found the branch: it already exists and must
                    // not be overwritten.
                    push_fail_now_v(m, SyncErrorKind::BranchAlreadyExists,
                        branch_exists_message_spec(m.branch, m.fork_url))
                } else {
                    (
                        PushMachineV { phase: PushPhase::FetchingBase, ..m },
                        PushActionV::FetchBase {
                            checkout: m.checkout_path,
                            url: github_url_spec("rust-lang/rust"@),
                            sha: m.base_sha,
                        },
                    )
                }
            },
            PushPhase::FetchingBase => {
                if !ok {
                    push_fail_now_v(m, SyncErrorKind::BaseFetchFailed,
                        "cannot download latest upstream SHA"@)
                } else {
                    (
                        PushMachineV { phase: PushPhase::PushingBase, ..m },
                        PushActionV::PushBase {
                            checkout: m.checkout_path,
                            url: m.fork_url,
                            refspec: m.base_sha + ":refs/heads/"@ + m.branch,
                        },
                    )
                }
            },
            PushPhase::PushingBase => {
                if !ok {
                    push_fail_now_v(m, SyncErrorKind::BasePushFailed, "cannot push to your fork"@)
                } else {
                    (
                        PushMachineV { phase: PushPhase::PushingFiltered, ..m },
                        PushActionV::PushFiltered {
                            url: m.josh_url,
                            refspec: "HEAD:"@ + m.branch,
                        },
                    )
                }
            },
            PushPhase::PushingFiltered => {
                if !ok {
                    push_fail_now_v(m, SyncErrorKind::PushFailed, "cannot push through Josh"@)
                } else {
                    (
                        PushMachineV { phase: PushPhase::FetchingRoundtrip, ..m },
                        PushActionV::FetchRoundtrip { url: m.josh_url, branch: m.branch },
                    )
                }
            },
            PushPhase::FetchingRoundtrip => {
                if !ok {
                    push_fail_now_v(m, SyncErrorKind::RoundTripFetchFailed,
                        "cannot fetch the pushed branch back through Josh"@)
                } else {
                    (PushMachineV { phase: PushPhase::CapturingLocalHead, ..m },
                        PushActionV::CaptureHead)
                }
            },
            PushPhase::CapturingLocalHead => {
                if !ok {
                    push_fail_now_v(m, SyncErrorKind::HeadResolveFailed,
                        "failed to get current commit"@)
                } else {
                    (
                        PushMachineV {
                            phase: PushPhase::CapturingFetchHead,
                            local_head: output,
                            ..m
                        },
                        PushActionV::ResolveFetchHead,
                    )
                }
            },
            PushPhase::CapturingFetchHead => {
                if !ok {
                    push_fail_now_v(m, SyncErrorKind::HeadResolveFailed,
                        "cannot resolve FETCH_HEAD"@)
                } else if output == m.local_head {
                    (
                        PushMachineV { phase: PushPhase::Finished, ..m },
                        PushActionV::Finish { result: Ok(()) },
                    )
                } else {
                    push_fail_now_v(m, SyncErrorKind::RoundTripMismatch,
                        roundtrip_mismatch_message_spec(m.local_head, output))
                }
            },
            _ => (m, arbitrary()),
        },
    }
}

fn branch_exists_message(branch: &str, fork_url: &str) -> (r: String)
    ensures
        r@ == branch_exists_message_spec(branch@, fork_url@),
{
    let mut s = String::from_str("The branch '");
    s.append(branch);
    s.append("' seems to already exist in '");
    s.append(fork_url);
    s.append("'. Please delete it and try again.");
    proof {
        assert(s@ =~= branch_exists_message_spec(branch@, fork_url@));
    }
    s
}

fn roundtrip_mismatch_message(head: &str, fetch_head: &str) -> (r: String)
    ensures
        r@ == roundtrip_mismatch_message_spec(head@, fetch_head@),
{
    let mut s = String::from_str(
        "Josh created a non-roundtrip push! Do NOT merge this into rustc!\nExpected ");
    s.append(head);
    s.append(", got ");
    s.append(fetch_head);
    s.append(".");
    proof {
        assert(s@ =~= roundtrip_mismatch_message_spec(head@, fetch_head@));
    }
    s
}

impl PushMachine {
    fn fail_now(&mut self, kind: SyncErrorKind, msg: &str) -> (act: PushAction)
        ensures
            (final(self)@, act@) == push_fail_now_v(old(self)@, kind, msg@),
    {
        self.phase = PushPhase::Finished;
        let act = PushAction::Finish {
            result: Err(SyncError { kind, message: msg.to_owned() }),
        };
        proof {
            assert(self@ =~= push_fail_now_v(old(self)@, kind, msg@).0);
            assert(act@ =~= push_fail_now_v(old(self)@, kind, msg@).1);
        }
        act
    }

    fn checkout_ready(&mut self, path: String) -> (act: PushAction)
        ensures
            (final(self)@, act@) == checkout_ready_v(old(self)@, path@),
    {
        self.phase = PushPhase::StartingProxy;
        self.checkout_path = path;
        let act = PushAction::StartProxy;
        proof {
            assert(self@ =~= checkout_ready_v(old(self)@, self.checkout_path@).0);
        }
        act
    }

    /// Feeds the outcome of the awaited action into the machine and returns
    /// what the driver must do next. The machine follows `push_step_spec`
    /// exactly.
    pub fn step(&mut self, ev: PushEvent) -> (act: PushAction)
        requires
            old(self)@.wf(),
            old(self)@.expects(ev@),
        ensures
            (final(self)@, act@) == push_step_spec(old(self)@, ev@),
            final(self)@.wf(),
    {
        match ev {
            PushEvent::Proxy(p) => {
                match p {
                    None => self.fail_now(SyncErrorKind::ProxyStartFailed,
                        "cannot start josh-proxy"),
                    Some(port) => {
                        let filter = self.config.construct_josh_filter();
                        let mut fork_name = self.username.clone();
                        fork_name.append("/rust");
                        let url = josh_git_url(port, fork_name.as_str(), None, filter.as_str());
                        self.josh_url = url;
                        self.phase = PushPhase::CheckingBranchAbsent;
                        let act = PushAction::FetchBranch {
                            checkout: self.checkout_path.clone(),
                            url: self.fork_url.clone(),
                            branch: self.branch.clone(),
                        };
                        proof {
                            assert(self@ =~= push_step_spec(old(self)@, ev@).0);
                            assert(act@ =~= push_step_spec(old(self)@, ev@).1);
                        }
                        act
                    },
                }
            },
            PushEvent::Checkout { env_override, default_has_git } => {
                match env_override {
                    Some(path) => self.checkout_ready(path),
                    None => {
                        if default_has_git {
                            self.checkout_ready("rustc-checkout".to_owned())
                        } else {
                            self.phase = PushPhase::PromptingClone;
                            let act = PushAction::PromptClone {
                                path: "rustc-checkout".to_owned(),
                            };
                            proof {
                                assert(self@ =~= push_step_spec(old(self)@, ev@).0);
                                assert(act@ =~= push_step_spec(old(self)@, ev@).1);
                            }
                            act
                        }
                    },
                }
            },
            PushEvent::Prompt(yes) => {
                if yes {
                    self.phase = PushPhase::CloningUpstream;
                    let mut clone_url = String::from_str("https://github.com/");
                    clone_url.append("rust-lang/rust");
                    let act = PushAction::CloneUpstream {
                        url: clone_url,
                        path: "rustc-checkout".to_owned(),
                    };
                    proof {
                        assert(self@ =~= push_step_spec(old(self)@, ev@).0);
                        assert(act@ =~= push_step_spec(old(self)@, ev@).1);
                    }
                    act
                } else {
                    self.fail_now(SyncErrorKind::CheckoutMissing,
                        "cannot continue without a rustc checkout")
                }
            },
            PushEvent::Cmd(o) => {
                let CmdOutcome { ok, output } = o;
                match self.phase {
                    PushPhase::CheckingClean => {
                        if !ok {
                            self.fail_now(SyncErrorKind::PreflightFailed,
                                "cannot figure out if git state is clean")
                        } else if let Err(e) = ensure_clean_git_state(output.as_str()) {
                            self.phase = PushPhase::Finished;
                            let act = PushAction::Finish { result: Err(e) };
                            proof {
                                assert(self@ =~= push_step_spec(old(self)@, ev@).0);
                                assert(act@ =~= push_step_spec(old(self)@, ev@).1);
                            }
                            act
                        } else {
                            self.phase = PushPhase::ProbingCheckout;
                            proof {
                                assert(self@ =~= push_step_spec(old(self)@, ev@).0);
                            }
                            PushAction::ProbeCheckout
                        }
                    },
                    PushPhase::CloningUpstream => {
                        if !ok {
                            self.fail_now(SyncErrorKind::CheckoutCloneFailed, "cannot clone rustc")
                        } else {
                            self.checkout_ready("rustc-checkout".to_owned())
                        }
                    },
                    PushPhase::CheckingBranchAbsent => {
                        if ok {
                            let msg = branch_exists_message(self.branch.as_str(),
                                self.fork_url.as_str());
                            self.phase = PushPhase::Finished;
                            let act = PushAction::Finish {
                                result: Err(SyncError {
                                    kind: SyncErrorKind::BranchAlreadyExists,
                                    message: msg,
                                }),
                            };
                            proof {
                                assert(self@ =~= push_step_spec(old(self)@, ev@).0);
                                assert(act@ =~= push_step_spec(old(self)@, ev@).1);
                            }
                            act
                        } else {
                            self.phase = PushPhase::FetchingBase;
                            let mut base_url = String::from_str("https://github.com/");
                            base_url.append("rust-lang/rust");
                            let act = PushAction::FetchBase {
                                checkout: self.checkout_path.clone(),
                                url: base_url,
                                sha: self.base_sha.clone(),
                            };
                            proof {
                                assert(self@ =~= push_step_spec(old(self)@, ev@).0);
                                assert(act@ =~= push_step_spec(old(self)@, ev@).1);
                            }
                            act
                        }
                    },
                    PushPhase::FetchingBase => {
                        if !ok {
                            self.fail_now(SyncErrorKind::BaseFetchFailed,
                                "cannot download latest upstream SHA")
                        } else {
                            let mut refspec = self.base_sha.clone();
                            refspec.append(":refs/heads/");
                            refspec.append(self.branch.as_str());
                            self.phase = PushPhase::PushingBase;
                            let act = PushAction::PushBase {
                                checkout: self.checkout_path.clone(),
                                url: self.fork_url.clone(),
                                refspec,
                            };
                            proof {
                                assert(self@ =~= push_step_spec(old(self)@, ev@).0);
                                assert(act@ =~= push_step_spec(old(self)@, ev@).1);
                            }
                            act
                        }
                    },
                    PushPhase::PushingBase => {
                        if !ok {
                            self.fail_now(SyncErrorKind::BasePushFailed, "cannot push to your fork")
                        } else {
                            let mut refspec = String::from_str("HEAD:");
                            refspec.append(self.branch.as_str());
                            self.phase = PushPhase::PushingFiltered;
                            let act = PushAction::PushFiltered {
                                url: self.josh_url.clone(),
                                refspec,
                            };
                            proof {
                                assert(self@ =~= push_step_spec(old(self)@, ev@).0);
                                assert(act@ =~= push_step_spec(old(self)@, ev@).1);
                            }
                            act
                        }
                    },
                    PushPhase::PushingFiltered => {
                        if !ok {
                            self.fail_now(SyncErrorKind::PushFailed, "cannot push through Josh")
                        } else {
                            self.phase = PushPhase::FetchingRoundtrip;
                            let act = PushAction::FetchRoundtrip {
                                url: self.josh_url.clone(),
                                branch: self.branch.clone(),
                            };
                            proof {
                                assert(self@ =~= push_step_spec(old(self)@, ev@).0);
                                assert(act@ =~= push_step_spec(old(self)@, ev@).1);
                            }
                            act
                        }
                    },
                    PushPhase::FetchingRoundtrip => {
                        if !ok {
                            self.fail_now(SyncErrorKind::RoundTripFetchFailed,
                                "cannot fetch the pushed branch back through Josh")
                        } else {
                            self.phase = PushPhase::CapturingLocalHead;
                            proof {
                                assert(self@ =~= push_step_spec(old(self)@, ev@).0);
                            }
                            PushAction::CaptureHead
                        }
                    },
                    PushPhase::CapturingLocalHead => {
                        if !ok {
                            self.fail_now(SyncErrorKind::HeadResolveFailed,
                                "failed to get current commit")
                        } else {
                            self.local_head = output;
                            self.phase = PushPhase::CapturingFetchHead;
                            proof {
                                assert(self@ =~= push_step_spec(old(self)@, ev@).0);
                            }
                            PushAction::ResolveFetchHead
                        }
                    },
                    PushPhase::CapturingFetchHead => {
                        if !ok {
                            self.fail_now(SyncErrorKind::HeadResolveFailed,
                                "cannot resolve FETCH_HEAD")
                        } else if output.eq(&self.local_head) {
                            self.phase = PushPhase::Finished;
                            let act = PushAction::Finish { result: Ok(()) };
                            proof {
                                assert(self@ =~= push_step_spec(old(self)@, ev@).0);
                                assert(act@ =~= push_step_spec(old(self)@, ev@).1);
                            }
                            act
                        } else {
                            let msg = roundtrip_mismatch_message(self.local_head.as_str(),
                                output.as_str());
                            self.phase = PushPhase::Finished;
                            let act = PushAction::Finish {
                                result: Err(SyncError {
                                    kind: SyncErrorKind::RoundTripMismatch,
                                    message: msg,
                                }),
                            };
                            proof {
                                assert(self@ =~= push_step_spec(old(self)@, ev@).0);
                                assert(act@ =~= push_step_spec(old(self)@, ev@).1);
                            }
                            act
                        }
                    },
                    _ => unreached(),
                }
            },
        }
    }
}

/// Push round-trip: at the final comparison the push succeeds exactly when
/// the commit fetched back through the proxy equals the pushed local HEAD;
/// any divergence is a fatal failure carrying the mismatch message, which
/// names both SHAs (see `lemma_mismatch_message_names_both`).
pub proof fn lemma_push_round_trip(m: PushMachineV, ok: bool, output: Seq<char>)
    requires
        m.phase == PushPhase::CapturingFetchHead,
    ensures
        ({
            let (m2, act) = push_step_spec(m, PushEventV::Cmd { ok, output });
            &&& ((act == PushActionV::Finish { result: Ok(()) }) <==> (ok && output
                == m.local_head))
            &&& (ok && output != m.local_head ==> act == push_fail_v(
                SyncErrorKind::RoundTripMismatch,
                roundtrip_mismatch_message_spec(m.local_head, output),
            ))
            &&& m2.phase == PushPhase::Finished
        }),
{
}

/// The round-trip mismatch message names both commits: the pushed local HEAD
/// and the fetched-back commit each occur in it verbatim.
pub proof fn lemma_mismatch_message_names_both(head: Seq<char>, fetch_head: Seq<char>)
    ensures
        ({
            let msg = roundtrip_mismatch_message_spec(head, fetch_head);
            &&& exists|i: int|
                0 <= i && i + head.len() <= msg.len() && #[trigger] msg.subrange(
                    i,
                    i + head.len(),
                ) == head
            &&& exists|i: int|
                0 <= i && i + fetch_head.len() <= msg.len() && #[trigger] msg.subrange(
                    i,
                    i + fetch_head.len(),
                ) == fetch_head
        }),
{
    let pre = "Josh created a non-roundtrip push! Do NOT merge this into rustc!\nExpected "@;
    let mid = ", got "@;
    let msg = roundtrip_mismatch_message_spec(head, fetch_head);
    assert(msg.subrange(pre.len() as int, (pre.len() + head.len()) as int) =~= head);
    let j = pre.len() + head.len() + mid.len();
    assert(msg.subrange(j as int, (j + fetch_head.len()) as int) =~= fetch_head);
}

/// What `urlencoding::encode` returns, as a function of the input alone.
pub uninterp spec fn url_encoded_of(s: Seq<char>) -> Seq<char>;

/// Relies on urlencoding::encode: percent-encodes every byte except ASCII
/// alphanumerics and `-`, `_`, `.`, `~`. The result depends on the input
/// alone; an empty input gives an empty result, and every input character
/// yields at least one output character.
#[verifier::external_body]
fn url_encode(s: &str) -> (r: String)
    ensures
        r@ == url_encoded_of(s@),
        s@.len() == 0 ==> r@.len() == 0,
        r@.len() >= s@.len(),
{
    urlencoding::encode(s).into_owned()
}

/// The body suggested for the upstream pull request after a successful push.
pub open spec fn pr_body_spec(full_name: Seq<char>) -> Seq<char> {
    "Subtree update of https://github.com/"@ + full_name
        + ".\n\nCreated using https://github.com/rust-lang/josh-sync.\n\nr? @ghost"@
}

pub fn push_pr_body(config: &JoshConfig) -> (r: String)
    ensures
        r@ == pr_body_spec(config@.full_name()),
{
    let mut s = String::from_str("Subtree update of https://github.com/");
    s.append(config.full_repo_name().as_str());
    s.append(".\n\nCreated using https://github.com/rust-lang/josh-sync.\n\nr? @ghost");
    proof {
        assert(s@ =~= pr_body_spec(config@.full_name()));
    }
    s
}

/// The pre-filled compare URL for opening the upstream pull request, with the
/// suggested body percent-encoded into its query.
pub open spec fn pr_url_spec(
    username: Seq<char>,
    branch: Seq<char>,
    repo: Seq<char>,
    body: Seq<char>,
) -> Seq<char> {
    "https://github.com/rust-lang/rust/compare/"@ + username + ":"@ + branch
        + "?quick_pull=1&title="@ + repo + "+subtree+update&body="@ + url_encoded_of(body)
}

pub fn create_pr_url(username: &str, branch: &str, repo: &str, body: &str) -> (r: String)
    ensures
        r@ == pr_url_spec(username@, branch@, repo@, body@),
{
    let mut s = String::from_str("https://github.com/rust-lang/rust/compare/");
    s.append(username);
    s.append(":");
    s.append(branch);
    s.append("?quick_pull=1&title=");
    s.append(repo);
    s.append("+subtree+update&body=");
    s.append(url_encode(body).as_str());
    proof {
        assert(s@ =~= pr_url_spec(username@, branch@, repo@, body@));
    }
    s
}

/// The machine a push starts in: awaiting the preflight check of the working
/// tree.
pub open spec fn push_init_spec(
    config: JoshConfigV,
    last_upstream_sha: Option<Seq<char>>,
    username: Seq<char>,
    branch: Seq<char>,
) -> (PushMachineV, PushActionV) {
    let m = PushMachineV {
        phase: PushPhase::CheckingClean,
        username: username,
        branch: branch,
        base_sha: match last_upstream_sha {
            Some(s) => s,
            None => Seq::empty(),
        },
        config: config,
        checkout_path: Seq::empty(),
        fork_url: github_url_spec(fork_name_spec(username)),
        josh_url: Seq::empty(),
        local_head: Seq::empty(),
    };
    (m, PushActionV::CheckStatus)
}

impl GitSync {
    /// Begins a push of the local history onto branch `branch` of
    /// `username`'s fork. Returns the machine and the first action for the
    /// driver.
    pub fn start_push(&self, username: String, branch: String) -> (r: (PushMachine, PushAction))
        requires
            self.context@.wf(),
        ensures
            (r.0@, r.1@) == push_init_spec(self.context@.config,
                self.context@.last_upstream_sha, username@, branch@),
            r.0@.wf(),
    {
        let mut fork_url = String::from_str("https://github.com/");
        fork_url.append(username.as_str());
        fork_url.append("/rust");
        let m = PushMachine {
            phase: PushPhase::CheckingClean,
            username,
            branch,
            base_sha: match &self.context.last_upstream_sha {
                Some(s) => s.clone(),
                None => String::new(),
            },
            config: self.context.config.clone(),
            checkout_path: String::new(),
            fork_url,
            josh_url: String::new(),
            local_head: String::new(),
        };
        proof {
            assert(m@.fork_url =~= github_url_spec(fork_name_spec(m@.username)));
            assert(m@ =~= push_init_spec(self.context@.config, self.context@.last_upstream_sha,
                m@.username, m@.branch).0);
        }
        (m, PushAction::CheckStatus)
    }
}

} // verus!

//! The filtering-proxy side of the engine: the proxy's address, the synthetic
//! git URLs it serves, the bounded startup poll, and the graceful-then-forced
//! shutdown plan. Spawning the process, probing the TCP port and sending the
//! signals are I/O and live with the driver; the decisions live here.

use vstd::prelude::*;

verus! {

use crate::text::{dec_digits, decimal_string};

/// The fixed local TCP port the proxy is bound to.
pub const JOSH_PORT: u16 = 42042;

/// How often the startup poll probes the proxy port, in milliseconds.
pub const PROXY_POLL_INTERVAL_MS: u64 = 10;

/// How many times the startup poll probes the proxy port before giving up.
pub const PROXY_POLL_ATTEMPTS: u32 = 100;

/// Version of `josh-proxy` that should be installed for the user.
pub const JOSH_VERSION: &'static str = "r24.10.04";

/// A located `josh-proxy` executable.
pub struct JoshProxy {
    pub path: String,
}

#[verifier::ext_equal]
pub struct JoshProxyV {
    pub path: Seq<char>,
}

impl View for JoshProxy {
    type V = JoshProxyV;

    open spec fn view(&self) -> JoshProxyV {
        JoshProxyV { path: self.path@ }
    }
}

impl JoshProxy {
    pub fn new(path: String) -> (r: Self)
        ensures
            r@.path == path@,
    {
        JoshProxy { path }
    }
}

/// The URL under which the running proxy serves the filtered view of
/// `repo`, optionally pinned to one commit:
/// `http://localhost:<port>/<repo>.git[@<commit>]<filter>.git`.
pub open spec fn josh_url_spec(
    port: nat,
    repo: Seq<char>,
    commit: Option<Seq<char>>,
    filter: Seq<char>,
) -> Seq<char> {
    "http://localhost:"@ + dec_digits(port) + "/"@ + repo + ".git"@ + (match commit {
        Some(c) => "@"@ + c,
        None => Seq::empty(),
    }) + filter + ".git"@
}

pub fn josh_git_url(port: u16, repo: &str, commit: Option<&str>, filter: &str) -> (r: String)
    ensures
        r@ == josh_url_spec(port as nat, repo@, commit.deep_view(), filter@),
{
    let mut s = String::from_str("http://localhost:");
    s.append(decimal_string(port as u32).as_str());
    s.append("/");
    s.append(repo);
    s.append(".git");
    match commit {
        Some(c) => {
            s.append("@");
            s.append(c);
        },
        None => {},
    }
    s.append(filter);
    s.append(".git");
    proof {
        assert(s@ =~= josh_url_spec(port as nat, repo@, commit.deep_view(), filter@));
    }
    s
}

/// What the startup loop does after one probe of the proxy port.
#[derive(Clone, Copy, Debug, PartialEq, Eq, Structural)]
pub enum PollDecision {
    /// The port is open: the proxy is ready.
    Ready,
    /// The port is still closed: sleep for the poll interval and probe again.
    RetryAfterDelay,
    /// The attempt budget is exhausted: startup has failed.
    GiveUp,
}

/// Decides the startup loop's next move after the probe numbered `attempt`
/// (counting from zero) found the port open or closed.
pub fn proxy_poll_decision(attempt: u32, port_open: bool) -> (r: PollDecision)
    ensures
        r == PollDecision::Ready <==> port_open,
        r == PollDecision::GiveUp <==> (!port_open && attempt + 1 >= PROXY_POLL_ATTEMPTS),
        r == PollDecision::RetryAfterDelay <==> (!port_open && attempt + 1 < PROXY_POLL_ATTEMPTS),
{
    if port_open {
        PollDecision::Ready
    } else if attempt >= PROXY_POLL_ATTEMPTS - 1 {
        PollDecision::GiveUp
    } else {
        PollDecision::RetryAfterDelay
    }
}

/// One move of the proxy shutdown sequence.
#[derive(Clone, Copy, Debug, PartialEq, Eq, Structural)]
pub enum ShutdownStep {
    /// Send the child an interrupt signal and wait out the grace period.
    Interrupt,
    /// Terminate the child forcibly.
    ForceKill,
    /// The child has exited; nothing is left to do.
    Done,
}

/// How a shutdown begins: gracefully where interrupt signals are supported,
/// forcibly elsewhere.
pub fn shutdown_first_step(signals_supported: bool) -> (r: ShutdownStep)
    ensures
        r == ShutdownStep::Interrupt <==> signals_supported,
        r == ShutdownStep::ForceKill <==> !signals_supported,
{
    if signals_supported {
        ShutdownStep::Interrupt
    } else {
        ShutdownStep::ForceKill
    }
}

/// How a shutdown continues once the grace period after the interrupt has
/// passed: done if the child exited, forced termination otherwise, so that no
/// orphaned proxy is ever left behind.
pub fn shutdown_after_grace(exited: bool) -> (r: ShutdownStep)
    ensures
        r == ShutdownStep::Done <==> exited,
        r == ShutdownStep::ForceKill <==> !exited,
{
    if exited {
        ShutdownStep::Done
    } else {
        ShutdownStep::ForceKill
    }
}

/// The command that installs (or updates) the pinned proxy version.
pub fn josh_install_command() -> (r: Vec<String>)
    ensures
        r.deep_view() == seq![
            "cargo"@,
            "install"@,
            "--locked"@,
            "--git"@,
            "https://github.com/josh-project/josh"@,
            "--tag"@,
            JOSH_VERSION@,
            "josh-proxy"@,
        ],
{
    let mut v: Vec<String> = Vec::new();
    v.push("cargo".to_owned());
    v.push("install".to_owned());
    v.push("--locked".to_owned());
    v.push("--git".to_owned());
    v.push("https://github.com/josh-project/josh".to_owned());
    v.push("--tag".to_owned());
    v.push(JOSH_VERSION.to_owned());
    v.push("josh-proxy".to_owned());
    proof {
        assert(v.deep_view() =~~= seq![
            "cargo"@,
            "install"@,
            "--locked"@,
            "--git"@,
            "https://github.com/josh-project/josh"@,
            "--tag"@,
            JOSH_VERSION@,
            "josh-proxy"@,
        ]);
    }
    v
}

} // verus!

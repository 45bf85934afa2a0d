//! A synchronization engine for a repository that mirrors one subtree of a
//! large upstream monorepo. A *pull* brings recent upstream history affecting
//! the subtree into this repository; a *push* sends local commits back to a
//! contributor's fork of upstream. Both run every git operation through a
//! locally spawned filtering proxy that serves a rewritten view of the remote
//! restricted to the subtree.
//!
//! The engine is written as two state machines, [`pull::PullMachine`] and
//! [`push::PushMachine`]. A driver outside this crate performs the I/O: it
//! executes the action each machine orders (a git command, the proxy startup,
//! a prompt) and reports the outcome back through `step`. Every decision —
//! what to run next, when a pull is a no-op, what is rolled back on failure
//! and what is deliberately left in place — is made inside the machines and
//! verified against the mathematical transition functions
//! [`pull::pull_step_spec`] and [`push::push_step_spec`].

use vstd::prelude::*;

pub mod config;
pub mod josh;
pub mod pull;
pub mod push;
pub mod sync;
pub mod text;

verus! {

use crate::config::{JoshConfig, JoshConfigV};

/// Everything a synchronization run needs to know about the repository it
/// operates on: the configuration, the last synchronized upstream commit (if a
/// pull ever happened), and where that marker is stored.
pub struct SyncContext {
    pub config: JoshConfig,
    /// The last synced upstream SHA, which should be present
    /// if a pull was already performed at least once.
    pub last_upstream_sha: Option<String>,
    /// Path to a file that stores the last synced upstream SHA.
    pub last_upstream_sha_path: String,
}

/// Mathematical image of a `SyncContext`.
#[verifier::ext_equal]
pub struct SyncContextV {
    pub config: JoshConfigV,
    pub last_upstream_sha: Option<Seq<char>>,
    pub last_upstream_sha_path: Seq<char>,
}

impl View for SyncContext {
    type V = SyncContextV;

    open spec fn view(&self) -> SyncContextV {
        SyncContextV {
            config: self.config@,
            last_upstream_sha: self.last_upstream_sha.deep_view(),
            last_upstream_sha_path: self.last_upstream_sha_path@,
        }
    }
}

impl SyncContextV {
    pub open spec fn wf(self) -> bool {
        self.config.wf()
    }
}

} // verus!

use josh_sync::SyncContext;
use josh_sync::config::JoshConfig;
use josh_sync::josh::JoshProxy;
use josh_sync::push::{PushAction, PushEvent, PushMachine, PushPhase, create_pr_url, push_pr_body};
use josh_sync::sync::{CmdOutcome, GitSync, SyncErrorKind};

fn sync_with(marker: Option<&str>) -> GitSync {
    let config = JoshConfig {
        org: "rust-lang".to_string(),
        repo: "x".to_string(),
        path: Some("lib/x".to_string()),
        filter: None,
        post_pull: Vec::new(),
    };
    let context = SyncContext {
        config,
        last_upstream_sha: marker.map(|s| s.to_string()),
        last_upstream_sha_path: "rust-version".to_string(),
    };
    GitSync::new(context, JoshProxy::new("/usr/bin/josh-proxy".to_string()), false)
}

fn ok(output: &str) -> PushEvent {
    PushEvent::Cmd(CmdOutcome { ok: true, output: output.to_string() })
}

fn failed(output: &str) -> PushEvent {
    PushEvent::Cmd(CmdOutcome { ok: false, output: output.to_string() })
}

/// Drives a push up to the round-trip comparison: preflight, checkout from
/// the environment, proxy, absent branch, base fetch and both pushes.
fn drive_to_roundtrip(sync: &GitSync) -> PushMachine {
    let (mut m, act) = sync.start_push("user".to_string(), "sync-branch".to_string());
    assert!(matches!(act, PushAction::CheckStatus));
    assert!(matches!(m.step(ok("")), PushAction::ProbeCheckout));
    match m.step(PushEvent::Checkout {
        env_override: Some("/checkouts/rust".to_string()),
        default_has_git: false,
    }) {
        PushAction::StartProxy => {}
        other => panic!("expected StartProxy, got {other:?}"),
    }
    match m.step(PushEvent::Proxy(Some(42042))) {
        PushAction::FetchBranch { checkout, url, branch } => {
            assert_eq!(checkout, "/checkouts/rust");
            assert_eq!(url, "https://github.com/user/rust");
            assert_eq!(branch, "sync-branch");
        }
        other => panic!("expected FetchBranch, got {other:?}"),
    }
    // The branch is not found on the fork: that is the good case.
    match m.step(failed("couldn't find remote ref")) {
        PushAction::FetchBase { checkout, url, sha } => {
            assert_eq!(checkout, "/checkouts/rust");
            assert_eq!(url, "https://github.com/rust-lang/rust");
            assert_eq!(sha, "aaa111");
        }
        other => panic!("expected FetchBase, got {other:?}"),
    }
    match m.step(ok("")) {
        PushAction::PushBase { checkout, url, refspec } => {
            assert_eq!(checkout, "/checkouts/rust");
            assert_eq!(url, "https://github.com/user/rust");
            assert_eq!(refspec, "aaa111:refs/heads/sync-branch");
        }
        other => panic!("expected PushBase, got {other:?}"),
    }
    match m.step(ok("")) {
        PushAction::PushFiltered { url, refspec } => {
            assert_eq!(url, "http://localhost:42042/user/rust.git:/lib/x.git");
            assert_eq!(refspec, "HEAD:sync-branch");
        }
        other => panic!("expected PushFiltered, got {other:?}"),
    }
    match m.step(ok("")) {
        PushAction::FetchRoundtrip { url, branch } => {
            assert_eq!(url, "http://localhost:42042/user/rust.git:/lib/x.git");
            assert_eq!(branch, "sync-branch");
        }
        other => panic!("expected FetchRoundtrip, got {other:?}"),
    }
    assert!(matches!(m.step(ok("")), PushAction::CaptureHead));
    m
}

#[test]
fn push_succeeds_when_the_round_trip_matches() {
    let sync = sync_with(Some("aaa111"));
    let mut m = drive_to_roundtrip(&sync);
    assert!(matches!(m.step(ok("localhead777")), PushAction::ResolveFetchHead));
    match m.step(ok("localhead777")) {
        PushAction::Finish { result } => assert!(result.is_ok()),
        other => panic!("expected Finish, got {other:?}"),
    }
    assert_eq!(m.phase, PushPhase::Finished);
}

#[test]
fn round_trip_mismatch_is_fatal_and_names_both_shas() {
    let sync = sync_with(Some("aaa111"));
    let mut m = drive_to_roundtrip(&sync);
    assert!(matches!(m.step(ok("localhead777")), PushAction::ResolveFetchHead));
    match m.step(ok("otherhead888")) {
        PushAction::Finish { result } => {
            let e = result.unwrap_err();
            assert_eq!(e.kind, SyncErrorKind::RoundTripMismatch);
            assert_eq!(
                e.message,
                "Josh created a non-roundtrip push! Do NOT merge this into rustc!\n\
                 Expected localhead777, got otherhead888."
            );
            assert!(e.message.contains("localhead777"));
            assert!(e.message.contains("otherhead888"));
        }
        other => panic!("expected Finish, got {other:?}"),
    }
}

#[test]
fn existing_branch_on_the_fork_aborts_the_push() {
    let sync = sync_with(Some("aaa111"));
    let (mut m, _act) = sync.start_push("user".to_string(), "sync-branch".to_string());
    assert!(matches!(m.step(ok("")), PushAction::ProbeCheckout));
    assert!(matches!(
        m.step(PushEvent::Checkout {
            env_override: Some("/checkouts/rust".to_string()),
            default_has_git: false,
        }),
        PushAction::StartProxy
    ));
    assert!(matches!(
        m.step(PushEvent::Proxy(Some(42042))),
        PushAction::FetchBranch { .. }
    ));
    // The fetch of the branch succeeds: the branch already exists.
    match m.step(ok("deadbeef\trefs/heads/sync-branch")) {
        PushAction::Finish { result } => {
            let e = result.unwrap_err();
            assert_eq!(e.kind, SyncErrorKind::BranchAlreadyExists);
            assert_eq!(
                e.message,
                "The branch 'sync-branch' seems to already exist in \
                 'https://github.com/user/rust'. Please delete it and try again."
            );
        }
        other => panic!("expected Finish, got {other:?}"),
    }
}

#[test]
fn missing_checkout_offers_a_clone_and_declining_aborts() {
    let sync = sync_with(Some("aaa111"));
    let (mut m, _act) = sync.start_push("user".to_string(), "b".to_string());
    assert!(matches!(m.step(ok("")), PushAction::ProbeCheckout));
    match m.step(PushEvent::Checkout { env_override: None, default_has_git: false }) {
        PushAction::PromptClone { path } => assert_eq!(path, "rustc-checkout"),
        other => panic!("expected PromptClone, got {other:?}"),
    }
    match m.step(PushEvent::Prompt(false)) {
        PushAction::Finish { result } => {
            let e = result.unwrap_err();
            assert_eq!(e.kind, SyncErrorKind::CheckoutMissing);
            assert_eq!(e.message, "cannot continue without a rustc checkout");
        }
        other => panic!("expected Finish, got {other:?}"),
    }
}

#[test]
fn accepted_clone_offer_downloads_the_checkout() {
    let sync = sync_with(Some("aaa111"));
    let (mut m, _act) = sync.start_push("user".to_string(), "b".to_string());
    assert!(matches!(m.step(ok("")), PushAction::ProbeCheckout));
    assert!(matches!(
        m.step(PushEvent::Checkout { env_override: None, default_has_git: true }),
        PushAction::StartProxy
    ));
    assert_eq!(m.checkout_path, "rustc-checkout");
}

#[test]
fn accepted_clone_offer_clones_then_starts_the_proxy() {
    let sync = sync_with(Some("aaa111"));
    let (mut m, _act) = sync.start_push("user".to_string(), "b".to_string());
    assert!(matches!(m.step(ok("")), PushAction::ProbeCheckout));
    assert!(matches!(
        m.step(PushEvent::Checkout { env_override: None, default_has_git: false }),
        PushAction::PromptClone { .. }
    ));
    match m.step(PushEvent::Prompt(true)) {
        PushAction::CloneUpstream { url, path } => {
            assert_eq!(url, "https://github.com/rust-lang/rust");
            assert_eq!(path, "rustc-checkout");
        }
        other => panic!("expected CloneUpstream, got {other:?}"),
    }
    assert!(matches!(m.step(ok("")), PushAction::StartProxy));
}

#[test]
fn missing_marker_gives_an_empty_base() {
    let sync = sync_with(None);
    let (m, _act) = sync.start_push("user".to_string(), "b".to_string());
    assert_eq!(m.base_sha, "");
}

#[test]
fn dirty_working_tree_aborts_the_push() {
    let sync = sync_with(Some("aaa111"));
    let (mut m, _act) = sync.start_push("user".to_string(), "b".to_string());
    match m.step(ok("?? junk\n M src/lib.rs")) {
        PushAction::Finish { result } => {
            assert_eq!(result.unwrap_err().kind, SyncErrorKind::DirtyWorkTree);
        }
        other => panic!("expected Finish, got {other:?}"),
    }
}

#[test]
fn pr_body_describes_the_subtree_update() {
    let config = JoshConfig {
        org: "rust-lang".to_string(),
        repo: "x".to_string(),
        path: Some("lib/x".to_string()),
        filter: None,
        post_pull: Vec::new(),
    };
    assert_eq!(
        push_pr_body(&config),
        "Subtree update of https://github.com/rust-lang/x.\n\n\
         Created using https://github.com/rust-lang/josh-sync.\n\nr? @ghost"
    );
}

#[test]
fn pr_url_percent_encodes_the_body() {
    let url = create_pr_url("user", "sync-branch", "x", "r? @ghost");
    assert_eq!(
        url,
        "https://github.com/rust-lang/rust/compare/user:sync-branch\
         ?quick_pull=1&title=x+subtree+update&body=r%3F%20%40ghost"
    );
}

#[test]
fn pr_url_keeps_unreserved_characters() {
    let url = create_pr_url("u", "b", "x", "safe-._~123");
    assert!(url.ends_with("&body=safe-._~123"));
}

use josh_sync::SyncContext;
use josh_sync::config::{JoshConfig, PostPullOperation};
use josh_sync::josh::JoshProxy;
use josh_sync::pull::{PullAction, PullEvent, PullMachine, PullPhase};
use josh_sync::sync::{CmdOutcome, GitSync, RustcPullError, SyncErrorKind};

fn sync_with(marker: Option<&str>, post_pull: Vec<PostPullOperation>) -> GitSync {
    let config = JoshConfig {
        org: "rust-lang".to_string(),
        repo: "x".to_string(),
        path: Some("lib/x".to_string()),
        filter: None,
        post_pull,
    };
    let context = SyncContext {
        config,
        last_upstream_sha: marker.map(|s| s.to_string()),
        last_upstream_sha_path: "rust-version".to_string(),
    };
    GitSync::new(context, JoshProxy::new("/usr/bin/josh-proxy".to_string()), false)
}

fn ok(output: &str) -> PullEvent {
    PullEvent::Cmd(CmdOutcome { ok: true, output: output.to_string() })
}

fn failed(output: &str) -> PullEvent {
    PullEvent::Cmd(CmdOutcome { ok: false, output: output.to_string() })
}

/// Drives a machine up to the point where the merge is about to happen:
/// resolves `head` from the remote, passes the preflight, commits the marker,
/// starts the proxy and fetches. Returns the machine in the `Merging` phase.
fn drive_to_merge(sync: &GitSync, head: &str) -> (PullMachine, String) {
    let (mut m, act) = sync.start_pull("rust-lang/rust".to_string(), None, false);
    match act {
        PullAction::LsRemote { url } => assert_eq!(url, "https://github.com/rust-lang/rust"),
        other => panic!("expected LsRemote, got {other:?}"),
    }
    let listing = format!("{head}\tHEAD");
    assert!(matches!(m.step(ok(&listing)), PullAction::CheckStatus));
    assert!(matches!(m.step(ok("")), PullAction::CaptureHead));
    match m.step(ok("orighead111")) {
        PullAction::CommitMarker { path, contents, message } => {
            assert_eq!(path, "rust-version");
            assert_eq!(contents, format!("{head}\n"));
            assert_eq!(
                message,
                format!(
                    "Prepare for merging from rust-lang/rust\n\nThis updates the rust-version file to {head}."
                )
            );
        }
        other => panic!("expected CommitMarker, got {other:?}"),
    }
    assert!(matches!(m.step(ok("")), PullAction::StartProxy));
    match m.step(PullEvent::Proxy(Some(42042))) {
        PullAction::FetchUpstream { url } => assert_eq!(
            url,
            format!("http://localhost:42042/rust-lang/rust.git@{head}:/lib/x.git")
        ),
        other => panic!("expected FetchUpstream, got {other:?}"),
    }
    assert!(matches!(m.step(ok("")), PullAction::CountRoots));
    assert!(matches!(m.step(ok("1")), PullAction::CaptureHead));
    assert!(matches!(m.step(ok("premerge222")), PullAction::ResolveFetchHead));
    let merge_message = match m.step(ok("incoming333")) {
        PullAction::MergeFetched { message } => message,
        other => panic!("expected MergeFetched, got {other:?}"),
    };
    (m, merge_message)
}

#[test]
fn pull_reports_nothing_when_marker_equals_upstream_head() {
    let sync = sync_with(Some("aaa111"), Vec::new());
    let (mut m, act) = sync.start_pull("rust-lang/rust".to_string(), None, false);
    assert!(matches!(act, PullAction::LsRemote { .. }));
    assert!(matches!(m.step(ok("aaa111\tHEAD")), PullAction::CheckStatus));
    match m.step(ok("")) {
        PullAction::Finish { result } => {
            assert!(matches!(result, Err(RustcPullError::NothingToPull)));
        }
        other => panic!("expected Finish, got {other:?}"),
    }
    assert_eq!(m.phase, PullPhase::Finished);
}

#[test]
fn clean_pull_updates_marker_and_succeeds() {
    let sync = sync_with(Some("aaa111"), Vec::new());
    let (mut m, merge_message) = drive_to_merge(&sync, "bbb222");
    let expected = "Merge ref 'bbb222' from rust-lang/rust\n\n\
        Pull recent changes from https://github.com/rust-lang/rust via Josh.\n\n\
        Upstream ref: bbb222\n\
        Filtered ref: incoming333\n\
        Upstream diff: https://github.com/rust-lang/rust/compare/aaa111...bbb222\n\n\
        This merge was created using https://github.com/rust-lang/josh-sync.\n";
    assert_eq!(merge_message, expected);
    // The merge applies cleanly and moves HEAD; the content diff is non-empty.
    assert!(matches!(m.step(ok("")), PullAction::CaptureHead));
    match m.step(ok("merged444")) {
        PullAction::DiffAgainst { sha } => assert_eq!(sha, "premerge222"),
        other => panic!("expected DiffAgainst, got {other:?}"),
    }
    assert!(matches!(m.step(failed("diff")), PullAction::CountRoots));
    match m.step(ok("1")) {
        PullAction::Finish { result } => {
            assert_eq!(result.unwrap().merge_commit_message, expected);
        }
        other => panic!("expected Finish, got {other:?}"),
    }
}

#[test]
fn short_sha_is_clipped_to_twelve_characters_in_merge_message() {
    let sync = sync_with(Some("aaa111"), Vec::new());
    let (_m, merge_message) = drive_to_merge(&sync, "0123456789abcdef0123");
    assert!(merge_message.starts_with("Merge ref '0123456789ab' from rust-lang/rust"));
}

#[test]
fn fetch_failure_rolls_back_to_original_head() {
    let sync = sync_with(Some("aaa111"), Vec::new());
    let (mut m, act) = sync.start_pull("rust-lang/rust".to_string(), None, false);
    assert!(matches!(act, PullAction::LsRemote { .. }));
    assert!(matches!(m.step(ok("bbb222\tHEAD")), PullAction::CheckStatus));
    assert!(matches!(m.step(ok("")), PullAction::CaptureHead));
    assert!(matches!(m.step(ok("orighead111")), PullAction::CommitMarker { .. }));
    assert!(matches!(m.step(ok("")), PullAction::StartProxy));
    assert!(matches!(
        m.step(PullEvent::Proxy(Some(42042))),
        PullAction::FetchUpstream { .. }
    ));
    // The fetch fails: the marker commit must be undone.
    match m.step(failed("network down")) {
        PullAction::ResetHard { sha } => assert_eq!(sha, "orighead111"),
        other => panic!("expected ResetHard, got {other:?}"),
    }
    match m.step(ok("")) {
        PullAction::Finish { result } => match result {
            Err(RustcPullError::PullFailed(e)) => {
                assert_eq!(e.kind, SyncErrorKind::FetchFailed);
                assert_eq!(e.message, "cannot fetch git state through Josh");
            }
            other => panic!("expected PullFailed, got {other:?}"),
        },
        other => panic!("expected Finish, got {other:?}"),
    }
}

#[test]
fn merge_conflict_is_left_in_place_and_distinct_from_nothing_to_pull() {
    let sync = sync_with(Some("aaa111"), Vec::new());
    let (mut m, _msg) = drive_to_merge(&sync, "bbb222");
    // The merge reports a conflict: no reset is ordered, the failure is
    // reported at once and differs from "nothing to pull".
    match m.step(failed("CONFLICT (content)")) {
        PullAction::Finish { result } => match result {
            Err(RustcPullError::PullFailed(e)) => {
                assert_eq!(e.kind, SyncErrorKind::MergeFailed);
            }
            other => panic!("expected PullFailed, got {other:?}"),
        },
        other => panic!("expected Finish, got {other:?}"),
    }
    assert_eq!(m.phase, PullPhase::Finished);
    assert!(!m.guard_armed);
}

#[test]
fn added_root_commit_is_a_fatal_integrity_error() {
    let sync = sync_with(Some("aaa111"), Vec::new());
    let (mut m, _msg) = drive_to_merge(&sync, "bbb222");
    assert!(matches!(m.step(ok("")), PullAction::CaptureHead));
    assert!(matches!(m.step(ok("merged444")), PullAction::DiffAgainst { .. }));
    assert!(matches!(m.step(failed("diff")), PullAction::CountRoots));
    match m.step(ok("2")) {
        PullAction::Finish { result } => match result {
            Err(RustcPullError::PullFailed(e)) => {
                assert_eq!(e.kind, SyncErrorKind::RootInvariantViolated);
                assert_eq!(
                    e.message,
                    "Josh created a new root commit. This is probably not the history you want."
                );
            }
            other => panic!("expected PullFailed, got {other:?}"),
        },
        other => panic!("expected Finish, got {other:?}"),
    }
}

#[test]
fn unmoved_head_after_merge_is_nothing_to_pull_and_rolls_back() {
    let sync = sync_with(Some("aaa111"), Vec::new());
    let (mut m, _msg) = drive_to_merge(&sync, "bbb222");
    assert!(matches!(m.step(ok("")), PullAction::CaptureHead));
    // HEAD did not move: no merge commit was created.
    match m.step(ok("premerge222")) {
        PullAction::ResetHard { sha } => assert_eq!(sha, "orighead111"),
        other => panic!("expected ResetHard, got {other:?}"),
    }
    match m.step(ok("")) {
        PullAction::Finish { result } => {
            assert!(matches!(result, Err(RustcPullError::NothingToPull)));
        }
        other => panic!("expected Finish, got {other:?}"),
    }
}

#[test]
fn empty_content_diff_is_nothing_to_pull_unless_noop_allowed() {
    let sync = sync_with(Some("aaa111"), Vec::new());
    let (mut m, _msg) = drive_to_merge(&sync, "bbb222");
    assert!(matches!(m.step(ok("")), PullAction::CaptureHead));
    assert!(matches!(m.step(ok("merged444")), PullAction::DiffAgainst { .. }));
    // The diff against the pre-merge state is empty.
    match m.step(ok("")) {
        PullAction::ResetHard { sha } => assert_eq!(sha, "orighead111"),
        other => panic!("expected ResetHard, got {other:?}"),
    }
    match m.step(ok("")) {
        PullAction::Finish { result } => {
            assert!(matches!(result, Err(RustcPullError::NothingToPull)));
        }
        other => panic!("expected Finish, got {other:?}"),
    }
}

#[test]
fn allow_noop_keeps_an_empty_merge() {
    let sync = sync_with(Some("aaa111"), Vec::new());
    let (mut m, act) = sync.start_pull("rust-lang/rust".to_string(), None, true);
    assert!(matches!(act, PullAction::LsRemote { .. }));
    assert!(matches!(m.step(ok("bbb222\tHEAD")), PullAction::CheckStatus));
    assert!(matches!(m.step(ok("")), PullAction::CaptureHead));
    assert!(matches!(m.step(ok("orighead111")), PullAction::CommitMarker { .. }));
    assert!(matches!(m.step(ok("")), PullAction::StartProxy));
    assert!(matches!(
        m.step(PullEvent::Proxy(Some(42042))),
        PullAction::FetchUpstream { .. }
    ));
    assert!(matches!(m.step(ok("")), PullAction::CountRoots));
    assert!(matches!(m.step(ok("1")), PullAction::CaptureHead));
    assert!(matches!(m.step(ok("premerge222")), PullAction::ResolveFetchHead));
    assert!(matches!(m.step(ok("incoming333")), PullAction::MergeFetched { .. }));
    assert!(matches!(m.step(ok("")), PullAction::CaptureHead));
    // HEAD did not move, but no-op merges were explicitly allowed.
    assert!(matches!(m.step(ok("premerge222")), PullAction::DiffAgainst { .. }));
    // The diff is empty too; still no rollback.
    assert!(matches!(m.step(ok("")), PullAction::CountRoots));
    match m.step(ok("1")) {
        PullAction::Finish { result } => assert!(result.is_ok()),
        other => panic!("expected Finish, got {other:?}"),
    }
}

#[test]
fn dirty_working_tree_aborts_before_any_mutation() {
    let sync = sync_with(Some("aaa111"), Vec::new());
    let (mut m, _act) = sync.start_pull("rust-lang/rust".to_string(), None, false);
    assert!(matches!(m.step(ok("bbb222\tHEAD")), PullAction::CheckStatus));
    match m.step(ok(" M src/lib.rs")) {
        PullAction::Finish { result } => match result {
            Err(RustcPullError::PullFailed(e)) => {
                assert_eq!(e.kind, SyncErrorKind::DirtyWorkTree);
                assert_eq!(e.message, "working directory must be clean");
            }
            other => panic!("expected PullFailed, got {other:?}"),
        },
        other => panic!("expected Finish, got {other:?}"),
    }
}

#[test]
fn unparseable_remote_listing_is_fatal() {
    let sync = sync_with(None, Vec::new());
    let (mut m, _act) = sync.start_pull("rust-lang/rust".to_string(), None, false);
    match m.step(ok("  \n ")) {
        PullAction::Finish { result } => match result {
            Err(RustcPullError::PullFailed(e)) => {
                assert_eq!(e.kind, SyncErrorKind::ResolveFailed);
            }
            other => panic!("expected PullFailed, got {other:?}"),
        },
        other => panic!("expected Finish, got {other:?}"),
    }
}

#[test]
fn explicit_upstream_commit_skips_remote_resolution() {
    let sync = sync_with(None, Vec::new());
    let (m, act) = sync.start_pull(
        "rust-lang/rust".to_string(),
        Some("cafebabe1234".to_string()),
        false,
    );
    assert!(matches!(act, PullAction::CheckStatus));
    assert_eq!(m.upstream_sha, "cafebabe1234");
    assert_eq!(m.phase, PullPhase::CheckingClean);
}

#[test]
fn post_pull_operation_commits_only_when_it_changed_something() {
    let ops = vec![
        PostPullOperation {
            cmd: vec!["cargo".to_string(), "fmt".to_string()],
            commit_message: "reformat".to_string(),
        },
        PostPullOperation {
            cmd: vec!["true".to_string()],
            commit_message: "noop".to_string(),
        },
    ];
    let sync = sync_with(Some("aaa111"), ops);
    let (mut m, _msg) = drive_to_merge(&sync, "bbb222");
    assert!(matches!(m.step(ok("")), PullAction::CaptureHead));
    assert!(matches!(m.step(ok("merged444")), PullAction::DiffAgainst { .. }));
    // Non-empty merge diff; two post-pull operations follow.
    assert!(matches!(m.step(failed("diff")), PullAction::CaptureHead));
    match m.step(ok("postbase555")) {
        PullAction::RunPostOp { index } => assert_eq!(index, 0),
        other => panic!("expected RunPostOp, got {other:?}"),
    }
    match m.step(ok("")) {
        PullAction::DiffAgainst { sha } => assert_eq!(sha, "postbase555"),
        other => panic!("expected DiffAgainst, got {other:?}"),
    }
    // The first operation changed files: its commit follows.
    match m.step(failed("diff")) {
        PullAction::CommitPostOp { message } => assert_eq!(message, "reformat"),
        other => panic!("expected CommitPostOp, got {other:?}"),
    }
    assert!(matches!(m.step(ok("")), PullAction::CaptureHead));
    match m.step(ok("postbase666")) {
        PullAction::RunPostOp { index } => assert_eq!(index, 1),
        other => panic!("expected RunPostOp, got {other:?}"),
    }
    assert!(matches!(m.step(ok("")), PullAction::DiffAgainst { .. }));
    // The second operation changed nothing: no commit, straight to the count.
    assert!(matches!(m.step(ok("")), PullAction::CountRoots));
    match m.step(ok("1")) {
        PullAction::Finish { result } => assert!(result.is_ok()),
        other => panic!("expected Finish, got {other:?}"),
    }
}

#[test]
fn proxy_startup_failure_rolls_back_the_marker() {
    let sync = sync_with(Some("aaa111"), Vec::new());
    let (mut m, _act) = sync.start_pull("rust-lang/rust".to_string(), None, false);
    assert!(matches!(m.step(ok("bbb222\tHEAD")), PullAction::CheckStatus));
    assert!(matches!(m.step(ok("")), PullAction::CaptureHead));
    assert!(matches!(m.step(ok("orighead111")), PullAction::CommitMarker { .. }));
    assert!(matches!(m.step(ok("")), PullAction::StartProxy));
    match m.step(PullEvent::Proxy(None)) {
        PullAction::ResetHard { sha } => assert_eq!(sha, "orighead111"),
        other => panic!("expected ResetHard, got {other:?}"),
    }
    match m.step(ok("")) {
        PullAction::Finish { result } => match result {
            Err(RustcPullError::PullFailed(e)) => {
                assert_eq!(e.kind, SyncErrorKind::ProxyStartFailed);
            }
            other => panic!("expected PullFailed, got {other:?}"),
        },
        other => panic!("expected Finish, got {other:?}"),
    }
}

#[test]
fn failed_rollback_is_a_fatal_error_of_its_own() {
    let sync = sync_with(Some("aaa111"), Vec::new());
    let (mut m, _act) = sync.start_pull("rust-lang/rust".to_string(), None, false);
    assert!(matches!(m.step(ok("bbb222\tHEAD")), PullAction::CheckStatus));
    assert!(matches!(m.step(ok("")), PullAction::CaptureHead));
    assert!(matches!(m.step(ok("orighead111")), PullAction::CommitMarker { .. }));
    assert!(matches!(m.step(ok("")), PullAction::StartProxy));
    assert!(matches!(
        m.step(PullEvent::Proxy(Some(42042))),
        PullAction::FetchUpstream { .. }
    ));
    assert!(matches!(m.step(failed("down")), PullAction::ResetHard { .. }));
    // The reset itself fails: the state is ambiguous and fatal.
    match m.step(failed("reset failed")) {
        PullAction::Finish { result } => match result {
            Err(RustcPullError::PullFailed(e)) => {
                assert_eq!(e.kind, SyncErrorKind::RollbackFailed);
            }
            other => panic!("expected PullFailed, got {other:?}"),
        },
        other => panic!("expected Finish, got {other:?}"),
    }
}

use fersk::git::{Git, GitError};
use fersk::hash::hash_bytes;
use fersk::paths::workspace_path;
use fersk::sync::{Sync, SyncAction, SyncEvent, SyncStage};

fn args(v: &[&str]) -> Vec<String> {
    v.iter().map(|s| s.to_string()).collect()
}

fn expect_run(a: Option<SyncAction>) -> fersk::git::GitCommand {
    match a {
        Some(SyncAction::Run(c)) => c,
        other => panic!("expected an engine run, got {:?}", other),
    }
}

fn expect_capture(a: Option<SyncAction>) -> fersk::git::GitCommand {
    match a {
        Some(SyncAction::Capture(c)) => c,
        other => panic!("expected an engine capture, got {:?}", other),
    }
}

fn ok() -> SyncEvent {
    SyncEvent::Status(Ok(()))
}

#[test]
fn fresh_workspace_is_cloned_and_checked_out() {
    let wp = workspace_path("/wr", &hash_bytes(b"/src/repo"));
    let (mut sync, first) = Sync::new(
        Git { silent: false },
        "/wr".to_string(),
        "/src/repo".to_string(),
        None,
        None,
        None,
    );
    let head = expect_capture(Some(first));
    assert_eq!(head.args, args(&["rev-parse", "--abbrev-ref", "HEAD"]));
    assert_eq!(head.current_dir.as_deref(), Some("/src/repo"));

    let exists = sync.step(SyncEvent::Output(Ok("main\n".to_string())));
    match exists {
        Some(SyncAction::CheckExists(p)) => assert_eq!(p, wp),
        other => panic!("expected the existence check, got {:?}", other),
    }

    let mkdir = sync.step(SyncEvent::Exists(false));
    match mkdir {
        Some(SyncAction::MakeDir(p)) => assert_eq!(p, wp),
        other => panic!("expected the directory creation, got {:?}", other),
    }

    let clone = expect_run(sync.step(SyncEvent::Created(true)));
    assert_eq!(
        clone.args,
        args(&["clone", "--origin", "fersk-origin", "/src/repo", &wp])
    );
    assert!(clone.current_dir.is_none());

    let reset = expect_run(sync.step(ok()));
    assert_eq!(reset.args, args(&["reset", "--hard"]));
    assert_eq!(reset.current_dir.as_deref(), Some(wp.as_str()));

    let clean = expect_run(sync.step(ok()));
    assert_eq!(clean.args, args(&["clean", "-fdx"]));

    let checkout = expect_run(sync.step(ok()));
    assert_eq!(checkout.args, args(&["checkout", "fersk-origin/main"]));

    assert!(sync.step(ok()).is_none());
    assert!(sync.is_done());
    assert_eq!(sync.target.as_deref(), Some("fersk-origin/main"));
    assert_eq!(sync.work_path, wp);
    assert_eq!(sync.source_root, "/src/repo");
}

#[test]
fn existing_workspace_is_fetched_not_cloned() {
    let wp = workspace_path("/wr", &hash_bytes(b"/src/repo"));
    let (mut sync, _) = Sync::new(
        Git { silent: false },
        "/wr".to_string(),
        "/src/repo".to_string(),
        None,
        None,
        None,
    );
    sync.step(SyncEvent::Output(Ok("main\n".to_string())));

    let set_url = expect_run(sync.step(SyncEvent::Exists(true)));
    assert_eq!(
        set_url.args,
        args(&["remote", "set-url", "fersk-origin", "/src/repo"])
    );
    assert_eq!(set_url.current_dir.as_deref(), Some(wp.as_str()));

    let fetch = expect_run(sync.step(ok()));
    assert_eq!(fetch.args, args(&["fetch", "fersk-origin"]));

    let reset = expect_run(sync.step(ok()));
    assert_eq!(reset.args, args(&["reset", "--hard"]));
    let clean = expect_run(sync.step(ok()));
    assert_eq!(clean.args, args(&["clean", "-fdx"]));
    let checkout = expect_run(sync.step(ok()));
    assert_eq!(checkout.args, args(&["checkout", "fersk-origin/main"]));
    assert!(sync.step(ok()).is_none());
    assert!(sync.is_done());
    assert_eq!(sync.target.as_deref(), Some("fersk-origin/main"));
}

#[test]
fn missing_reserved_remote_is_added() {
    let (mut sync, _) = Sync::new(
        Git { silent: false },
        "/wr".to_string(),
        "/src/repo".to_string(),
        Some("main".to_string()),
        None,
        None,
    );
    sync.step(SyncEvent::Exists(true));
    let add = expect_run(sync.step(SyncEvent::Status(Err(GitError::Unknown(Some(2))))));
    assert_eq!(add.args, args(&["remote", "add", "fersk-origin", "/src/repo"]));
    let fetch = expect_run(sync.step(ok()));
    assert_eq!(fetch.args, args(&["fetch", "fersk-origin"]));
}

#[test]
fn explicit_commit_is_checked_out_detached() {
    let (mut sync, first) = Sync::new(
        Git { silent: false },
        "/wr".to_string(),
        "/src/repo".to_string(),
        None,
        Some("deadbeef".to_string()),
        None,
    );
    assert!(matches!(first, SyncAction::CheckExists(_)));
    sync.step(SyncEvent::Exists(true));
    sync.step(ok());
    sync.step(ok());
    sync.step(ok());
    let checkout = expect_run(sync.step(ok()));
    assert_eq!(checkout.args, args(&["checkout", "deadbeef"]));
    assert!(sync.step(ok()).is_none());
    assert!(sync.is_done());
    assert_eq!(sync.target.as_deref(), Some("deadbeef"));
}

#[test]
fn branch_flag_beats_commit_flag_end_to_end() {
    let (mut sync, _) = Sync::new(
        Git { silent: false },
        "/wr".to_string(),
        "/src/repo".to_string(),
        Some("dev".to_string()),
        Some("c0ffee".to_string()),
        None,
    );
    sync.step(SyncEvent::Exists(true));
    sync.step(ok());
    sync.step(ok());
    sync.step(ok());
    let checkout = expect_run(sync.step(ok()));
    assert_eq!(checkout.args, args(&["checkout", "fersk-origin/dev"]));
}

#[test]
fn detached_head_resolves_through_the_commit_query() {
    let (mut sync, _) = Sync::new(
        Git { silent: false },
        "/wr".to_string(),
        "/src/repo".to_string(),
        None,
        None,
        None,
    );
    let commit_query = expect_capture(sync.step(SyncEvent::Output(Ok("HEAD\n".to_string()))));
    assert_eq!(commit_query.args, args(&["rev-parse", "HEAD"]));
    sync.step(SyncEvent::Output(Ok("deadbeef\n".to_string())));
    sync.step(SyncEvent::Exists(true));
    sync.step(ok());
    sync.step(ok());
    sync.step(ok());
    let checkout = expect_run(sync.step(ok()));
    assert_eq!(checkout.args, args(&["checkout", "deadbeef"]));
}

#[test]
fn copy_remote_is_mirrored_into_the_workspace() {
    let wp = workspace_path("/wr", &hash_bytes(b"/src/repo"));
    let (mut sync, _) = Sync::new(
        Git { silent: false },
        "/wr".to_string(),
        "/src/repo".to_string(),
        Some("main".to_string()),
        None,
        Some("upstream".to_string()),
    );
    sync.step(SyncEvent::Exists(true));
    sync.step(ok());
    let get_url = expect_capture(sync.step(ok()));
    assert_eq!(get_url.args, args(&["remote", "get-url", "upstream"]));
    assert_eq!(get_url.current_dir.as_deref(), Some("/src/repo"));

    let set_url = expect_run(sync.step(SyncEvent::Output(Ok(
        "https://example.invalid/repo.git\n".to_string(),
    ))));
    assert_eq!(
        set_url.args,
        args(&["remote", "set-url", "upstream", "https://example.invalid/repo.git"])
    );
    assert_eq!(set_url.current_dir.as_deref(), Some(wp.as_str()));

    let add = expect_run(sync.step(SyncEvent::Status(Err(GitError::Unknown(Some(2))))));
    assert_eq!(
        add.args,
        args(&["remote", "add", "upstream", "https://example.invalid/repo.git"])
    );

    let reset = expect_run(sync.step(ok()));
    assert_eq!(reset.args, args(&["reset", "--hard"]));
}

#[test]
fn a_failing_fetch_aborts_with_the_fetch_stage() {
    let (mut sync, _) = Sync::new(
        Git { silent: false },
        "/wr".to_string(),
        "/src/repo".to_string(),
        Some("main".to_string()),
        None,
        None,
    );
    sync.step(SyncEvent::Exists(true));
    sync.step(ok());
    let outcome = sync.step(SyncEvent::Status(Err(GitError::Unknown(Some(128)))));
    assert!(outcome.is_none());
    assert!(sync.is_failed());
    let failure = sync.failure.as_ref().unwrap();
    assert_eq!(failure.stage, SyncStage::Fetch);
    assert_eq!(failure.error, Some(GitError::Unknown(Some(128))));
}

#[test]
fn an_unlaunchable_engine_aborts_with_execute() {
    let (mut sync, _) = Sync::new(
        Git { silent: false },
        "/wr".to_string(),
        "/src/repo".to_string(),
        None,
        None,
        None,
    );
    let outcome = sync.step(SyncEvent::Output(Err(GitError::Execute)));
    assert!(outcome.is_none());
    assert!(sync.is_failed());
    let failure = sync.failure.as_ref().unwrap();
    assert_eq!(failure.stage, SyncStage::ResolveHead);
    assert_eq!(failure.error, Some(GitError::Execute));
}

#[test]
fn reruns_against_an_unchanged_source_do_the_same_work() {
    let run = |exists: bool| {
        let (mut sync, _) = Sync::new(
            Git { silent: false },
            "/wr".to_string(),
            "/src/repo".to_string(),
            None,
            None,
            None,
        );
        sync.step(SyncEvent::Output(Ok("main\n".to_string())));
        if exists {
            sync.step(SyncEvent::Exists(true));
            sync.step(ok());
        } else {
            sync.step(SyncEvent::Exists(false));
            sync.step(SyncEvent::Created(true));
        }
        sync.step(ok());
        sync.step(ok());
        sync.step(ok());
        sync.step(ok());
        assert!(sync.is_done());
        (sync.work_path, sync.target)
    };
    let first = run(false);
    let second = run(true);
    assert_eq!(first, second);
}

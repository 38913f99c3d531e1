use fersk::git::{
    classify_status, head_from_name, resolve_revision, Git, GitError, GitRev,
};

fn args(v: &[&str]) -> Vec<String> {
    v.iter().map(|s| s.to_string()).collect()
}

#[test]
fn cleanse_plans_reset_then_clean() {
    let git = Git { silent: false };
    let plan = git.cleanse("/work/abc");
    assert_eq!(plan.len(), 2);
    assert_eq!(plan[0].args, args(&["reset", "--hard"]));
    assert_eq!(plan[0].current_dir.as_deref(), Some("/work/abc"));
    assert!(!plan[0].capture);
    assert_eq!(plan[1].args, args(&["clean", "-fdx"]));
    assert_eq!(plan[1].current_dir.as_deref(), Some("/work/abc"));
    assert!(!plan[1].capture);
}

#[test]
fn checkout_plans_checkout_of_ref() {
    let git = Git { silent: true };
    let cmd = git.checkout("/work/abc", "fersk-origin/main");
    assert_eq!(cmd.args, args(&["checkout", "fersk-origin/main"]));
    assert_eq!(cmd.current_dir.as_deref(), Some("/work/abc"));
    assert!(cmd.quiet);
}

#[test]
fn fetch_plans_fetch_of_remote() {
    let git = Git { silent: false };
    let cmd = git.fetch("/work/abc", "fersk-origin");
    assert_eq!(cmd.args, args(&["fetch", "fersk-origin"]));
    assert_eq!(cmd.current_dir.as_deref(), Some("/work/abc"));
    assert!(!cmd.quiet);
}

#[test]
fn clone_plans_clone_with_origin_name() {
    let git = Git { silent: false };
    let cmd = git.clone_repo("/src/repo", "/work/abc", Some("fersk-origin"));
    assert_eq!(
        cmd.args,
        args(&["clone", "--origin", "fersk-origin", "/src/repo", "/work/abc"])
    );
    assert!(cmd.current_dir.is_none());
}

#[test]
fn clone_plans_plain_clone_without_origin_name() {
    let git = Git { silent: false };
    let cmd = git.clone_repo("/src/repo", "/work/abc", None);
    assert_eq!(cmd.args, args(&["clone", "/src/repo", "/work/abc"]));
}

#[test]
fn repository_root_query_captures_toplevel() {
    let git = Git { silent: false };
    let cmd = git.get_repository_root("/src/repo/subdir");
    assert_eq!(cmd.args, args(&["rev-parse", "--show-toplevel"]));
    assert_eq!(cmd.current_dir.as_deref(), Some("/src/repo/subdir"));
    assert!(cmd.capture);
}

#[test]
fn head_queries_capture_symbolic_name_then_commit() {
    let git = Git { silent: false };
    let first = git.get_current_head("/src/repo");
    assert_eq!(first.args, args(&["rev-parse", "--abbrev-ref", "HEAD"]));
    assert!(first.capture);
    let second = git.head_commit_query("/src/repo");
    assert_eq!(second.args, args(&["rev-parse", "HEAD"]));
    assert!(second.capture);
}

#[test]
fn remote_plans_set_add_and_get() {
    let git = Git { silent: false };
    let set = git.set_remote_url("/work/abc", "fersk-origin", "/src/repo");
    assert_eq!(set.args, args(&["remote", "set-url", "fersk-origin", "/src/repo"]));
    let add = git.add_remote("/work/abc", "fersk-origin", "/src/repo");
    assert_eq!(add.args, args(&["remote", "add", "fersk-origin", "/src/repo"]));
    let get = git.get_remote_url("/src/repo", "upstream");
    assert_eq!(get.args, args(&["remote", "get-url", "upstream"]));
    assert!(get.capture);
}

#[test]
fn classify_status_distinguishes_failures() {
    assert!(matches!(classify_status(true, true, Some(0)), Ok(())));
    assert!(matches!(classify_status(false, false, None), Err(GitError::Execute)));
    assert!(matches!(
        classify_status(true, false, Some(128)),
        Err(GitError::Unknown(Some(128)))
    ));
    assert!(matches!(classify_status(true, false, None), Err(GitError::Unknown(None))));
}

#[test]
fn head_from_name_reads_branch_or_detached() {
    match head_from_name("main".to_string()) {
        Some(GitRev::Branch(b)) => assert_eq!(b, "main"),
        _ => panic!("expected a branch"),
    }
    assert!(head_from_name("HEAD".to_string()).is_none());
}

#[test]
fn explicit_branch_beats_explicit_commit() {
    let head = GitRev::Branch("main".to_string());
    let r = resolve_revision(Some("dev".to_string()), Some("c0ffee".to_string()), head);
    match r {
        GitRev::Branch(b) => assert_eq!(b, "dev"),
        _ => panic!("expected the branch to be honored"),
    }
}

#[test]
fn explicit_commit_beats_current_head() {
    let head = GitRev::Branch("main".to_string());
    let r = resolve_revision(None, Some("c0ffee".to_string()), head);
    match r {
        GitRev::Commit(c) => assert_eq!(c, "c0ffee"),
        _ => panic!("expected the commit to be honored"),
    }
}

#[test]
fn head_is_used_without_explicit_flags() {
    let head = GitRev::Commit("deadbeef".to_string());
    let r = resolve_revision(None, None, head);
    match r {
        GitRev::Commit(c) => assert_eq!(c, "deadbeef"),
        _ => panic!("expected the head revision"),
    }
}

#[test]
fn qualification_prefixes_branches_only() {
    let b = GitRev::Branch("main".to_string());
    assert_eq!(b.qualified("fersk-origin").as_str(), "fersk-origin/main");
    assert!(b.qualified("fersk-origin").is_branch());
    let c = GitRev::Commit("deadbeef".to_string());
    assert_eq!(c.qualified("fersk-origin").as_str(), "deadbeef");
    assert!(!c.qualified("fersk-origin").is_branch());
}

#[test]
fn duplicate_preserves_the_revision() {
    let b = GitRev::Branch("main".to_string());
    let d = b.duplicate();
    assert_eq!(d.as_str(), "main");
    assert!(d.is_branch());
}

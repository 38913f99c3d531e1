use fersk::hash::hash_bytes;
use fersk::paths::{lock_path, workspace_path};

#[test]
fn workspace_path_joins_root_and_identity() {
    assert_eq!(workspace_path("/wr", "abc123"), "/wr/abc123");
}

#[test]
fn lock_path_lives_in_the_locks_directory() {
    assert_eq!(lock_path("/wr", "abc123"), "/wr/.locks/abc123.pid");
}

#[test]
fn distinct_sources_get_distinct_workspaces() {
    let id1 = hash_bytes(b"/home/user/one");
    let id2 = hash_bytes(b"/home/user/two");
    assert_ne!(workspace_path("/wr", &id1), workspace_path("/wr", &id2));
    assert_ne!(lock_path("/wr", &id1), lock_path("/wr", &id2));
}

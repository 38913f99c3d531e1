//! Derivation of the workspace directory and lock-file paths from the
//! work root and a repository identity.

use vstd::prelude::*;

verus! {

/// The workspace directory for an identity: `<work_root>/<identity>`.
pub open spec fn workspace_path_spec(work_root: Seq<char>, identity: Seq<char>) -> Seq<char> {
    work_root + "/"@ + identity
}

/// The lock-file path for an identity: `<work_root>/.locks/<identity>.pid`.
pub open spec fn lock_path_spec(work_root: Seq<char>, identity: Seq<char>) -> Seq<char> {
    work_root + "/.locks/"@ + identity + ".pid"@
}

/// Build the workspace directory path for an identity.
pub fn workspace_path(work_root: &str, identity: &str) -> (r: String)
    ensures
        r@ == workspace_path_spec(work_root@, identity@),
{
    let mut r = String::from_str(work_root);
    r.append("/");
    r.append(identity);
    r
}

/// Build the lock-file path for an identity.
pub fn lock_path(work_root: &str, identity: &str) -> (r: String)
    ensures
        r@ == lock_path_spec(work_root@, identity@),
{
    let mut r = String::from_str(work_root);
    r.append("/.locks/");
    r.append(identity);
    r.append(".pid");
    r
}

/// Distinct identities of equal length occupy distinct workspace
/// directories under the same work root, so no two repositories whose
/// identities differ ever share a workspace.
pub proof fn lemma_workspace_paths_distinct(
    work_root: Seq<char>,
    id1: Seq<char>,
    id2: Seq<char>,
)
    requires
        id1.len() == id2.len(),
        id1 != id2,
    ensures
        workspace_path_spec(work_root, id1) != workspace_path_spec(work_root, id2),
{
    let p = work_root + "/"@;
    if workspace_path_spec(work_root, id1) == workspace_path_spec(work_root, id2) {
        assert(id1 =~= id2) by {
            assert forall|i: int| 0 <= i < id1.len() implies id1[i] == id2[i] by {
                assert((p + id1)[p.len() + i] == id1[i]);
                assert((p + id2)[p.len() + i] == id2[i]);
            }
        }
    }
}

} // verus!

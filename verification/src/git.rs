//! The version-control adapter: a narrow capability surface over an
//! external engine. Because the engine runs in a separate process, each
//! operation here *plans* an invocation — it returns the exact argument
//! vector and working directory to run — and the outcome of a run is
//! classified back into this module's error type. The unverified host is a
//! thin driver that executes each planned command verbatim.

use vstd::prelude::*;

verus! {

/// How an engine invocation failed: the engine could not be launched at
/// all, or it ran and exited unsuccessfully (with its exit code, when one
/// exists).
#[derive(Debug, Clone, PartialEq, Eq)]
pub enum GitError {
    Execute,
    Unknown(Option<i32>),
}

/// A requested revision: either a branch name or a commit identifier.
#[derive(Debug)]
pub enum GitRev {
    Branch(String),
    Commit(String),
}

/// The specification-level value of a `GitRev`.
pub enum RevView {
    Branch(Seq<char>),
    Commit(Seq<char>),
}

impl View for GitRev {
    type V = RevView;

    open spec fn view(&self) -> RevView {
        match self {
            GitRev::Branch(s) => RevView::Branch(s@),
            GitRev::Commit(s) => RevView::Commit(s@),
        }
    }
}

/// The text carried by a revision, branch name or commit identifier alike.
pub open spec fn rev_text(v: RevView) -> Seq<char> {
    match v {
        RevView::Branch(s) => s,
        RevView::Commit(s) => s,
    }
}

/// A branch is checked out through the reserved tracking remote, so its
/// name is qualified with `<remote>/`; a commit identifier is used as is.
pub open spec fn qualify_spec(v: RevView, remote: Seq<char>) -> RevView {
    match v {
        RevView::Branch(b) => RevView::Branch(remote + "/"@ + b),
        RevView::Commit(c) => RevView::Commit(c),
    }
}

/// Requested-revision precedence: an explicit branch wins over an explicit
/// commit, which wins over the source repository's current head.
pub open spec fn resolve_rev_spec(
    branch: Option<Seq<char>>,
    commit: Option<Seq<char>>,
    head: RevView,
) -> RevView {
    if branch is Some {
        RevView::Branch(branch->0)
    } else if commit is Some {
        RevView::Commit(commit->0)
    } else {
        head
    }
}

impl GitRev {
    /// The revision's text, as handed to the engine.
    pub fn as_str(&self) -> (r: &str)
        ensures
            r@ == rev_text(self@),
    {
        match self {
            GitRev::Branch(s) => s.as_str(),
            GitRev::Commit(s) => s.as_str(),
        }
    }

    /// Whether the revision is a branch name.
    pub fn is_branch(&self) -> (b: bool)
        ensures
            b == (self@ is Branch),
    {
        match self {
            GitRev::Branch(_) => true,
            GitRev::Commit(_) => false,
        }
    }

    /// An identical copy of the revision.
    pub fn duplicate(&self) -> (r: GitRev)
        ensures
            r@ == self@,
    {
        match self {
            GitRev::Branch(s) => GitRev::Branch(s.clone()),
            GitRev::Commit(s) => GitRev::Commit(s.clone()),
        }
    }

    /// Qualify a branch with the given remote prefix for checkout; a commit
    /// is left untouched.
    pub fn qualified(&self, remote: &str) -> (r: GitRev)
        ensures
            r@ == qualify_spec(self@, remote@),
    {
        match self {
            GitRev::Branch(b) => {
                let mut s = String::from_str(remote);
                s.append("/");
                s.append(b.as_str());
                GitRev::Branch(s)
            },
            GitRev::Commit(c) => GitRev::Commit(c.clone()),
        }
    }
}

/// Pick the revision to check out: an explicit branch wins over an explicit
/// commit, which wins over the current head of the source repository.
pub fn resolve_revision(branch: Option<String>, commit: Option<String>, head: GitRev) -> (r:
    GitRev)
    ensures
        r@ == resolve_rev_spec(branch.deep_view(), commit.deep_view(), head@),
{
    match branch {
        Some(b) => GitRev::Branch(b),
        None => match commit {
            Some(c) => GitRev::Commit(c),
            None => head,
        },
    }
}

/// When both an explicit branch and an explicit commit are supplied, the
/// branch is the one honored.
pub proof fn lemma_branch_precedence(b: Seq<char>, c: Seq<char>, head: RevView)
    ensures
        resolve_rev_spec(Some(b), Some(c), head) == RevView::Branch(b),
{
}

/// A planned engine invocation: the argument vector after the engine name,
/// the directory to run it in, whether its standard output is wanted back,
/// and whether progress output is suppressed.
#[derive(Debug, Clone)]
pub struct GitCommand {
    pub current_dir: Option<String>,
    pub args: Vec<String>,
    pub capture: bool,
    pub quiet: bool,
}

/// The specification-level value of a `GitCommand`.
pub struct CmdView {
    pub dir: Option<Seq<char>>,
    pub args: Seq<Seq<char>>,
    pub capture: bool,
    pub quiet: bool,
}

impl View for GitCommand {
    type V = CmdView;

    open spec fn view(&self) -> CmdView {
        CmdView {
            dir: self.current_dir.deep_view(),
            args: self.args.deep_view(),
            capture: self.capture,
            quiet: self.quiet,
        }
    }
}

/// A status invocation in a directory: only success or failure is wanted;
/// progress output is suppressed when the adapter is silent.
pub open spec fn status_cmd(dir: Seq<char>, args: Seq<Seq<char>>, quiet: bool) -> CmdView {
    CmdView { dir: Some(dir), args, capture: false, quiet }
}

/// A capture invocation in a directory: standard output is wanted back.
pub open spec fn capture_cmd(dir: Seq<char>, args: Seq<Seq<char>>) -> CmdView {
    CmdView { dir: Some(dir), args, capture: true, quiet: false }
}

fn push_arg(v: &mut Vec<String>, a: &str)
    ensures
        final(v).deep_view() == old(v).deep_view().push(a@),
{
    v.push(String::from_str(a));
    proof {
        assert(v.deep_view() =~= old(v).deep_view().push(a@));
    }
}

/// The adapter over the version-control engine. When `silent` is set,
/// status invocations suppress the engine's progress output.
#[derive(Debug, Clone, Copy)]
pub struct Git {
    pub silent: bool,
}

impl Git {
    fn status(&self, path: &str, args: Vec<String>) -> (r: GitCommand)
        ensures
            r@ == status_cmd(path@, args.deep_view(), self.silent),
    {
        GitCommand {
            current_dir: Some(String::from_str(path)),
            args,
            capture: false,
            quiet: self.silent,
        }
    }

    fn capture(&self, path: &str, args: Vec<String>) -> (r: GitCommand)
        ensures
            r@ == capture_cmd(path@, args.deep_view()),
    {
        GitCommand {
            current_dir: Some(String::from_str(path)),
            args,
            capture: true,
            quiet: false,
        }
    }

    /// Plan the pristine-state restoration of a repository: first a hard
    /// reset of tracked files to the current ref, then — only then —
    /// removal of untracked and ignored files. The reset must come first so
    /// that the unconditional clean never has to reason about tracked files
    /// that were locally modified.
    pub fn cleanse(&self, path: &str) -> (r: Vec<GitCommand>)
        ensures
            r.len() == 2,
            r[0]@ == status_cmd(path@, seq!["reset"@, "--hard"@], self.silent),
            r[1]@ == status_cmd(path@, seq!["clean"@, "-fdx"@], self.silent),
    {
        let mut reset_args: Vec<String> = Vec::new();
        push_arg(&mut reset_args, "reset");
        push_arg(&mut reset_args, "--hard");
        proof {
            assert(reset_args.deep_view() =~= seq!["reset"@, "--hard"@]);
        }
        let mut clean_args: Vec<String> = Vec::new();
        push_arg(&mut clean_args, "clean");
        push_arg(&mut clean_args, "-fdx");
        proof {
            assert(clean_args.deep_view() =~= seq!["clean"@, "-fdx"@]);
        }
        let mut r: Vec<GitCommand> = Vec::new();
        r.push(self.status(path, reset_args));
        r.push(self.status(path, clean_args));
        r
    }

    /// Plan a checkout of the given ref in a repository.
    pub fn checkout(&self, path: &str, rev: &str) -> (r: GitCommand)
        ensures
            r@ == status_cmd(path@, seq!["checkout"@, rev@], self.silent),
    {
        let mut args: Vec<String> = Vec::new();
        push_arg(&mut args, "checkout");
        push_arg(&mut args, rev);
        proof {
            assert(args.deep_view() =~= seq!["checkout"@, rev@]);
        }
        self.status(path, args)
    }

    /// Plan a clone of `source` into `destination`, naming the clone's
    /// remote `origin_name` when one is given.
    pub fn clone_repo(&self, source: &str, destination: &str, origin_name: Option<&str>) -> (r:
        GitCommand)
        ensures
            r@ == (CmdView {
                dir: None,
                args: match origin_name {
                    Some(n) => seq!["clone"@, "--origin"@, n@, source@, destination@],
                    None => seq!["clone"@, source@, destination@],
                },
                capture: false,
                quiet: self.silent,
            }),
    {
        let mut args: Vec<String> = Vec::new();
        push_arg(&mut args, "clone");
        match origin_name {
            Some(n) => {
                push_arg(&mut args, "--origin");
                push_arg(&mut args, n);
                push_arg(&mut args, source);
                push_arg(&mut args, destination);
                proof {
                    assert(args.deep_view() =~= seq![
                        "clone"@,
                        "--origin"@,
                        n@,
                        source@,
                        destination@,
                    ]);
                }
            },
            None => {
                push_arg(&mut args, source);
                push_arg(&mut args, destination);
                proof {
                    assert(args.deep_view() =~= seq!["clone"@, source@, destination@]);
                }
            },
        }
        GitCommand { current_dir: None, args, capture: false, quiet: self.silent }
    }

    /// Plan a fetch of the named remote's refs into a repository.
    pub fn fetch(&self, path: &str, remote_name: &str) -> (r: GitCommand)
        ensures
            r@ == status_cmd(path@, seq!["fetch"@, remote_name@], self.silent),
    {
        let mut args: Vec<String> = Vec::new();
        push_arg(&mut args, "fetch");
        push_arg(&mut args, remote_name);
        proof {
            assert(args.deep_view() =~= seq!["fetch"@, remote_name@]);
        }
        self.status(path, args)
    }

    /// Plan the query for the canonical top-level directory of the
    /// repository containing `path`; the engine fails when `path` is not
    /// inside a repository.
    pub fn get_repository_root(&self, path: &str) -> (r: GitCommand)
        ensures
            r@ == capture_cmd(path@, seq!["rev-parse"@, "--show-toplevel"@]),
    {
        let mut args: Vec<String> = Vec::new();
        push_arg(&mut args, "rev-parse");
        push_arg(&mut args, "--show-toplevel");
        proof {
            assert(args.deep_view() =~= seq!["rev-parse"@, "--show-toplevel"@]);
        }
        self.capture(path, args)
    }

    /// Plan the first step of resolving the current head: the query for the
    /// symbolic name of HEAD. Feed its trimmed output to `head_from_name`;
    /// when that yields nothing, HEAD is detached and the commit query of
    /// `head_commit_query` finishes the resolution.
    pub fn get_current_head(&self, path: &str) -> (r: GitCommand)
        ensures
            r@ == capture_cmd(path@, seq!["rev-parse"@, "--abbrev-ref"@, "HEAD"@]),
    {
        let mut args: Vec<String> = Vec::new();
        push_arg(&mut args, "rev-parse");
        push_arg(&mut args, "--abbrev-ref");
        push_arg(&mut args, "HEAD");
        proof {
            assert(args.deep_view() =~= seq!["rev-parse"@, "--abbrev-ref"@, "HEAD"@]);
        }
        self.capture(path, args)
    }

    /// Plan the query for the commit identifier of HEAD, the second step of
    /// head resolution when HEAD is detached.
    pub fn head_commit_query(&self, path: &str) -> (r: GitCommand)
        ensures
            r@ == capture_cmd(path@, seq!["rev-parse"@, "HEAD"@]),
    {
        let mut args: Vec<String> = Vec::new();
        push_arg(&mut args, "rev-parse");
        push_arg(&mut args, "HEAD");
        proof {
            assert(args.deep_view() =~= seq!["rev-parse"@, "HEAD"@]);
        }
        self.capture(path, args)
    }

    /// Plan the first step of force-setting a remote's URL: rewrite the URL
    /// of an existing remote. When the engine reports the remote missing,
    /// the plan of `add_remote` completes the operation, so that
    /// force-setting never fails merely because the remote did not exist.
    pub fn set_remote_url(&self, path: &str, name: &str, url: &str) -> (r: GitCommand)
        ensures
            r@ == status_cmd(path@, seq!["remote"@, "set-url"@, name@, url@], self.silent),
    {
        let mut args: Vec<String> = Vec::new();
        push_arg(&mut args, "remote");
        push_arg(&mut args, "set-url");
        push_arg(&mut args, name);
        push_arg(&mut args, url);
        proof {
            assert(args.deep_view() =~= seq!["remote"@, "set-url"@, name@, url@]);
        }
        self.status(path, args)
    }

    /// Plan the fallback step of force-setting a remote's URL: create the
    /// remote with the given URL.
    pub fn add_remote(&self, path: &str, name: &str, url: &str) -> (r: GitCommand)
        ensures
            r@ == status_cmd(path@, seq!["remote"@, "add"@, name@, url@], self.silent),
    {
        let mut args: Vec<String> = Vec::new();
        push_arg(&mut args, "remote");
        push_arg(&mut args, "add");
        push_arg(&mut args, name);
        push_arg(&mut args, url);
        proof {
            assert(args.deep_view() =~= seq!["remote"@, "add"@, name@, url@]);
        }
        self.status(path, args)
    }

    /// Plan the query for the URL configured for a named remote; the engine
    /// fails when the remote is undefined.
    pub fn get_remote_url(&self, path: &str, name: &str) -> (r: GitCommand)
        ensures
            r@ == capture_cmd(path@, seq!["remote"@, "get-url"@, name@]),
    {
        let mut args: Vec<String> = Vec::new();
        push_arg(&mut args, "remote");
        push_arg(&mut args, "get-url");
        push_arg(&mut args, name);
        proof {
            assert(args.deep_view() =~= seq!["remote"@, "get-url"@, name@]);
        }
        self.capture(path, args)
    }
}

/// Classify the outcome of an engine invocation: launch failure, success,
/// or a non-zero exit carrying the engine's exit code when one exists.
pub fn classify_status(launched: bool, success: bool, code: Option<i32>) -> (r: Result<
    (),
    GitError,
>)
    ensures
        !launched ==> r == Err::<(), GitError>(GitError::Execute),
        launched && success ==> r is Ok,
        launched && !success ==> r == Err::<(), GitError>(GitError::Unknown(code)),
{
    if !launched {
        Err(GitError::Execute)
    } else if success {
        Ok(())
    } else {
        Err(GitError::Unknown(code))
    }
}

/// The modeled effect of force-setting a remote's URL on a repository's
/// remote table (remote name to URL): the named remote ends up mapped to
/// the given URL, whether it existed before or not, and every other remote
/// is untouched. The set-url/add plan pair realizes exactly this: set-url
/// overwrites an existing entry, and the add fallback creates a missing
/// one.
pub open spec fn force_set_remote_model(
    remotes: Map<Seq<char>, Seq<char>>,
    name: Seq<char>,
    url: Seq<char>,
) -> Map<Seq<char>, Seq<char>> {
    remotes.insert(name, url)
}

/// Force-setting a remote's URL is idempotent: setting the same name
/// twice, even to different URLs, leaves a single entry holding the latest
/// URL — no duplicate remotes, and no trace of the earlier URL.
pub proof fn lemma_force_set_remote_idempotent(
    remotes: Map<Seq<char>, Seq<char>>,
    name: Seq<char>,
    url1: Seq<char>,
    url2: Seq<char>,
)
    ensures
        force_set_remote_model(force_set_remote_model(remotes, name, url1), name, url2)
            == force_set_remote_model(remotes, name, url2),
        force_set_remote_model(force_set_remote_model(remotes, name, url1), name, url2).dom()
            == remotes.dom().insert(name),
{
    assert(force_set_remote_model(force_set_remote_model(remotes, name, url1), name, url2)
        =~= force_set_remote_model(remotes, name, url2));
    assert(force_set_remote_model(
        force_set_remote_model(remotes, name, url1),
        name,
        url2,
    ).dom() =~= remotes.dom().insert(name));
}

/// Interpret the trimmed output of the symbolic-name query: any name other
/// than the literal `HEAD` is the checked-out branch; the literal `HEAD`
/// means detached, and resolution continues with the commit query.
pub fn head_from_name(name: String) -> (r: Option<GitRev>)
    ensures
        name@ != "HEAD"@ ==> r == Some(GitRev::Branch(name)),
        name@ == "HEAD"@ ==> r is None,
{
    let detached = String::from_str("HEAD");
    if name == detached {
        None
    } else {
        Some(GitRev::Branch(name))
    }
}

} // verus!

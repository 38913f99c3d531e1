//! The workspace synchronizer: given a canonical source-repository root and
//! a requested revision, ensure the workspace exists, is wired to the
//! source through the reserved tracking remote, is fetched or freshly
//! cloned, is reset to a pristine tree, and has the requested revision
//! checked out.
//!
//! Every engine invocation and filesystem step runs in the unverified
//! host, so the synchronizer is a state machine: each step hands the host
//! the exact action to perform, and the host reports the outcome back. The
//! transition relation `sync_transition` is the machine's whole behaviour;
//! the executable `step` provably implements it.

use vstd::prelude::*;

use crate::git::{
    capture_cmd, status_cmd, CmdView, Git, GitCommand, GitError, GitRev, RevView, qualify_spec,
    rev_text,
};
use crate::hash::{hash_bytes, identity_of};
use crate::paths::{workspace_path, workspace_path_spec};
use crate::text::{trim_end, trim_end_spec};
use vstd::utf8::encode_utf8;

verus! {

/// The reserved name of the remote that tracks the source repository
/// inside every workspace. Its distinctive prefix keeps it clear of remote
/// names a user would choose.
pub open spec fn reserved_remote() -> Seq<char> {
    "fersk-origin"@
}

/// The reserved tracking remote's name, as handed to the engine.
pub fn reserved_remote_name() -> (r: &'static str)
    ensures
        r@ == reserved_remote(),
{
    "fersk-origin"
}

/// Where synchronization stands: which host answer it waits for, or how it
/// ended.
#[derive(Debug, Clone, Copy, PartialEq, Eq)]
pub enum SyncPhase {
    /// The symbolic-name query for the source repository's HEAD is out.
    ResolveHeadName,
    /// HEAD was detached; the commit query is out.
    ResolveHeadCommit,
    /// The workspace directory's existence check is out.
    CheckWorkspace,
    /// Rewiring the reserved remote of the existing workspace is out.
    SetRemote,
    /// The reserved remote was missing; its creation is out.
    AddRemote,
    /// The fetch from the reserved remote is out.
    FetchRemote,
    /// Creation of the fresh workspace directory is out.
    CreateDir,
    /// The clone into the fresh workspace is out.
    CloneRepo,
    /// The query for the copy remote's URL in the source repository is out.
    CopyUrl,
    /// Rewiring the copy remote in the workspace is out.
    SetCopyRemote,
    /// The copy remote was missing in the workspace; its creation is out.
    AddCopyRemote,
    /// The hard reset of the workspace tree is out.
    ResetTree,
    /// The removal of untracked and ignored files is out.
    CleanTree,
    /// The checkout of the resolved revision is out.
    CheckoutRev,
    /// Synchronization finished; the workspace is ready.
    Done,
    /// Synchronization aborted; `failure` names the stage.
    Failed,
}

/// The stage a failure is attributed to.
#[derive(Debug, Clone, Copy, PartialEq, Eq)]
pub enum SyncStage {
    ResolveHead,
    SetRemote,
    Fetch,
    CreateDir,
    Clone,
    CopyRemote,
    Reset,
    Clean,
    Checkout,
    /// The host answered out of protocol.
    Protocol,
}

/// Why synchronization aborted: the stage, and the engine error when the
/// stage failed in the engine.
#[derive(Debug, Clone, PartialEq, Eq)]
pub struct SyncError {
    pub stage: SyncStage,
    pub error: Option<GitError>,
}

/// The next step the host must perform for the synchronizer.
#[derive(Debug)]
pub enum SyncAction {
    /// Run the engine invocation for its exit status.
    Run(GitCommand),
    /// Run the engine invocation and hand back its standard output.
    Capture(GitCommand),
    /// Report whether the directory exists.
    CheckExists(String),
    /// Create the directory and every missing parent.
    MakeDir(String),
}

/// The specification-level value of a `SyncAction`.
pub enum SyncActionView {
    Run(CmdView),
    Capture(CmdView),
    CheckExists(Seq<char>),
    MakeDir(Seq<char>),
}

impl View for SyncAction {
    type V = SyncActionView;

    open spec fn view(&self) -> SyncActionView {
        match self {
            SyncAction::Run(c) => SyncActionView::Run(c@),
            SyncAction::Capture(c) => SyncActionView::Capture(c@),
            SyncAction::CheckExists(p) => SyncActionView::CheckExists(p@),
            SyncAction::MakeDir(p) => SyncActionView::MakeDir(p@),
        }
    }
}

/// What the host reports back for the corresponding action.
#[derive(Debug)]
pub enum SyncEvent {
    /// The exit classification of a `Run` action.
    Status(Result<(), GitError>),
    /// The captured output, or exit classification, of a `Capture` action.
    Output(Result<String, GitError>),
    /// The answer to a `CheckExists` action.
    Exists(bool),
    /// Whether a `MakeDir` action succeeded.
    Created(bool),
}

/// The specification-level value of a `SyncEvent`.
pub enum SyncEventView {
    Status(Result<(), GitError>),
    Output(Result<Seq<char>, GitError>),
    Exists(bool),
    Created(bool),
}

impl View for SyncEvent {
    type V = SyncEventView;

    open spec fn view(&self) -> SyncEventView {
        match self {
            SyncEvent::Status(r) => SyncEventView::Status(*r),
            SyncEvent::Output(r) => SyncEventView::Output(
                match r {
                    Ok(s) => Ok(s@),
                    Err(g) => Err(*g),
                },
            ),
            SyncEvent::Exists(b) => SyncEventView::Exists(*b),
            SyncEvent::Created(b) => SyncEventView::Created(*b),
        }
    }
}

/// The specification-level value of a `Sync` machine.
pub struct SyncView {
    pub silent: bool,
    pub work_root: Seq<char>,
    pub source_root: Seq<char>,
    pub identity: Seq<char>,
    pub work_path: Seq<char>,
    pub copy_remote: Option<Seq<char>>,
    pub copy_url: Option<Seq<char>>,
    pub phase: SyncPhase,
    pub rev: Option<RevView>,
    pub target: Option<Seq<char>>,
    pub failure: Option<SyncError>,
}

/// The synchronizer for one workspace.
#[derive(Debug)]
pub struct Sync {
    pub git: Git,
    pub work_root: String,
    pub source_root: String,
    pub identity: String,
    pub work_path: String,
    pub copy_remote: Option<String>,
    pub copy_url: Option<String>,
    pub phase: SyncPhase,
    pub rev: Option<GitRev>,
    pub target: Option<String>,
    pub failure: Option<SyncError>,
}

impl View for Sync {
    type V = SyncView;

    open spec fn view(&self) -> SyncView {
        SyncView {
            silent: self.git.silent,
            work_root: self.work_root@,
            source_root: self.source_root@,
            identity: self.identity@,
            work_path: self.work_path@,
            copy_remote: self.copy_remote.deep_view(),
            copy_url: self.copy_url.deep_view(),
            phase: self.phase,
            rev: match &self.rev {
                Some(r) => Some(r@),
                None => None,
            },
            target: self.target.deep_view(),
            failure: match &self.failure {
                Some(f) => Some(*f),
                None => None,
            },
        }
    }
}

/// The machine's initial view: the identity is the hash of the canonical
/// source root, the workspace path is derived from it, and an explicit
/// branch wins over an explicit commit, which wins over the source
/// repository's current head (resolved by the machine's first steps).
pub open spec fn sync_init(
    silent: bool,
    work_root: Seq<char>,
    source_root: Seq<char>,
    branch: Option<Seq<char>>,
    commit: Option<Seq<char>>,
    copy_remote: Option<Seq<char>>,
) -> SyncView {
    let identity = identity_of(encode_utf8(source_root));
    SyncView {
        silent,
        work_root,
        source_root,
        identity,
        work_path: workspace_path_spec(work_root, identity),
        copy_remote,
        copy_url: None,
        phase: if branch is Some || commit is Some {
            SyncPhase::CheckWorkspace
        } else {
            SyncPhase::ResolveHeadName
        },
        rev: if branch is Some {
            Some(RevView::Branch(branch->0))
        } else if commit is Some {
            Some(RevView::Commit(commit->0))
        } else {
            None
        },
        target: None,
        failure: None,
    }
}

/// The machine's first action: resolve the source head when no revision
/// was requested explicitly, else check whether the workspace exists.
pub open spec fn sync_start_action(v: SyncView) -> SyncActionView {
    if v.phase == SyncPhase::ResolveHeadName {
        SyncActionView::Capture(
            capture_cmd(v.source_root, seq!["rev-parse"@, "--abbrev-ref"@, "HEAD"@]),
        )
    } else {
        SyncActionView::CheckExists(v.work_path)
    }
}

/// A terminal failure at the given stage.
pub open spec fn sync_fail(v: SyncView, stage: SyncStage, error: Option<GitError>) -> (
    SyncView,
    Option<SyncActionView>,
) {
    (
        SyncView {
            phase: SyncPhase::Failed,
            failure: Some(SyncError { stage, error }),
            ..v
        },
        None,
    )
}

/// After the workspace history is synchronized (fetched or cloned): copy a
/// third-party remote over when one was requested, else go straight to
/// restoring a pristine tree.
pub open spec fn sync_after_history(v: SyncView) -> (SyncView, Option<SyncActionView>) {
    match v.copy_remote {
        Some(name) => (
            SyncView { phase: SyncPhase::CopyUrl, ..v },
            Some(
                SyncActionView::Capture(
                    capture_cmd(v.source_root, seq!["remote"@, "get-url"@, name]),
                ),
            ),
        ),
        None => sync_enter_reset(v),
    }
}

/// Enter the pristine-state restoration: the hard reset runs first, and
/// only its success lets the unconditional clean follow.
pub open spec fn sync_enter_reset(v: SyncView) -> (SyncView, Option<SyncActionView>) {
    (
        SyncView { phase: SyncPhase::ResetTree, ..v },
        Some(SyncActionView::Run(status_cmd(v.work_path, seq!["reset"@, "--hard"@], v.silent))),
    )
}

/// The transition relation of the synchronizer: for the machine's view and
/// a host answer, the next view and the next action, if any. Any answer
/// out of protocol aborts.
pub open spec fn sync_transition(v: SyncView, e: SyncEventView) -> (SyncView, Option<
    SyncActionView,
>) {
    match (v.phase, e) {
        (SyncPhase::ResolveHeadName, SyncEventView::Output(Ok(out))) => {
            let name = trim_end_spec(out);
            if name != "HEAD"@ {
                (
                    SyncView {
                        phase: SyncPhase::CheckWorkspace,
                        rev: Some(RevView::Branch(name)),
                        ..v
                    },
                    Some(SyncActionView::CheckExists(v.work_path)),
                )
            } else {
                (
                    SyncView { phase: SyncPhase::ResolveHeadCommit, ..v },
                    Some(
                        SyncActionView::Capture(
                            capture_cmd(v.source_root, seq!["rev-parse"@, "HEAD"@]),
                        ),
                    ),
                )
            }
        },
        (SyncPhase::ResolveHeadName, SyncEventView::Output(Err(err))) => sync_fail(
            v,
            SyncStage::ResolveHead,
            Some(err),
        ),
        (SyncPhase::ResolveHeadCommit, SyncEventView::Output(Ok(out))) => (
            SyncView {
                phase: SyncPhase::CheckWorkspace,
                rev: Some(RevView::Commit(trim_end_spec(out))),
                ..v
            },
            Some(SyncActionView::CheckExists(v.work_path)),
        ),
        (SyncPhase::ResolveHeadCommit, SyncEventView::Output(Err(err))) => sync_fail(
            v,
            SyncStage::ResolveHead,
            Some(err),
        ),
        (SyncPhase::CheckWorkspace, SyncEventView::Exists(true)) => (
            SyncView { phase: SyncPhase::SetRemote, ..v },
            Some(
                SyncActionView::Run(
                    status_cmd(
                        v.work_path,
                        seq!["remote"@, "set-url"@, reserved_remote(), v.source_root],
                        v.silent,
                    ),
                ),
            ),
        ),
        (SyncPhase::CheckWorkspace, SyncEventView::Exists(false)) => (
            SyncView { phase: SyncPhase::CreateDir, ..v },
            Some(SyncActionView::MakeDir(v.work_path)),
        ),
        (SyncPhase::SetRemote, SyncEventView::Status(Ok(ok))) => (
            SyncView { phase: SyncPhase::FetchRemote, ..v },
            Some(
                SyncActionView::Run(
                    status_cmd(v.work_path, seq!["fetch"@, reserved_remote()], v.silent),
                ),
            ),
        ),
        (SyncPhase::SetRemote, SyncEventView::Status(Err(GitError::Unknown(code)))) => (
            SyncView { phase: SyncPhase::AddRemote, ..v },
            Some(
                SyncActionView::Run(
                    status_cmd(
                        v.work_path,
                        seq!["remote"@, "add"@, reserved_remote(), v.source_root],
                        v.silent,
                    ),
                ),
            ),
        ),
        (SyncPhase::SetRemote, SyncEventView::Status(Err(GitError::Execute))) => sync_fail(
            v,
            SyncStage::SetRemote,
            Some(GitError::Execute),
        ),
        (SyncPhase::AddRemote, SyncEventView::Status(Ok(ok))) => (
            SyncView { phase: SyncPhase::FetchRemote, ..v },
            Some(
                SyncActionView::Run(
                    status_cmd(v.work_path, seq!["fetch"@, reserved_remote()], v.silent),
                ),
            ),
        ),
        (SyncPhase::AddRemote, SyncEventView::Status(Err(err))) => sync_fail(
            v,
            SyncStage::SetRemote,
            Some(err),
        ),
        (SyncPhase::FetchRemote, SyncEventView::Status(Ok(ok))) => sync_after_history(v),
        (SyncPhase::FetchRemote, SyncEventView::Status(Err(err))) => sync_fail(
            v,
            SyncStage::Fetch,
            Some(err),
        ),
        (SyncPhase::CreateDir, SyncEventView::Created(true)) => (
            SyncView { phase: SyncPhase::CloneRepo, ..v },
            Some(
                SyncActionView::Run(
                    (CmdView {
                        dir: None,
                        args: seq![
                            "clone"@,
                            "--origin"@,
                            reserved_remote(),
                            v.source_root,
                            v.work_path,
                        ],
                        capture: false,
                        quiet: v.silent,
                    }),
                ),
            ),
        ),
        (SyncPhase::CreateDir, SyncEventView::Created(false)) => sync_fail(
            v,
            SyncStage::CreateDir,
            None,
        ),
        (SyncPhase::CloneRepo, SyncEventView::Status(Ok(ok))) => sync_after_history(v),
        (SyncPhase::CloneRepo, SyncEventView::Status(Err(err))) => sync_fail(
            v,
            SyncStage::Clone,
            Some(err),
        ),
        (SyncPhase::CopyUrl, SyncEventView::Output(Ok(out))) => {
            match v.copy_remote {
                Some(name) => {
                    let url = trim_end_spec(out);
                    (
                        SyncView {
                            phase: SyncPhase::SetCopyRemote,
                            copy_url: Some(url),
                            ..v
                        },
                        Some(
                            SyncActionView::Run(
                                status_cmd(
                                    v.work_path,
                                    seq!["remote"@, "set-url"@, name, url],
                                    v.silent,
                                ),
                            ),
                        ),
                    )
                },
                None => sync_fail(v, SyncStage::Protocol, None),
            }
        },
        (SyncPhase::CopyUrl, SyncEventView::Output(Err(err))) => sync_fail(
            v,
            SyncStage::CopyRemote,
            Some(err),
        ),
        (SyncPhase::SetCopyRemote, SyncEventView::Status(Ok(ok))) => sync_enter_reset(v),
        (SyncPhase::SetCopyRemote, SyncEventView::Status(Err(GitError::Unknown(code)))) => {
            if v.copy_remote is Some && v.copy_url is Some {
                (
                    SyncView { phase: SyncPhase::AddCopyRemote, ..v },
                    Some(
                        SyncActionView::Run(
                            status_cmd(
                                v.work_path,
                                seq!["remote"@, "add"@, v.copy_remote->0, v.copy_url->0],
                                v.silent,
                            ),
                        ),
                    ),
                )
            } else {
                sync_fail(v, SyncStage::Protocol, None)
            }
        },
        (SyncPhase::SetCopyRemote, SyncEventView::Status(Err(GitError::Execute))) => sync_fail(
            v,
            SyncStage::CopyRemote,
            Some(GitError::Execute),
        ),
        (SyncPhase::AddCopyRemote, SyncEventView::Status(Ok(ok))) => sync_enter_reset(v),
        (SyncPhase::AddCopyRemote, SyncEventView::Status(Err(err))) => sync_fail(
            v,
            SyncStage::CopyRemote,
            Some(err),
        ),
        (SyncPhase::ResetTree, SyncEventView::Status(Ok(ok))) => (
            SyncView { phase: SyncPhase::CleanTree, ..v },
            Some(
                SyncActionView::Run(
                    status_cmd(v.work_path, seq!["clean"@, "-fdx"@], v.silent),
                ),
            ),
        ),
        (SyncPhase::ResetTree, SyncEventView::Status(Err(err))) => sync_fail(
            v,
            SyncStage::Reset,
            Some(err),
        ),
        (SyncPhase::CleanTree, SyncEventView::Status(Ok(ok))) => {
            match v.rev {
                Some(rev) => {
                    let target = rev_text(qualify_spec(rev, reserved_remote()));
                    (
                        SyncView {
                            phase: SyncPhase::CheckoutRev,
                            target: Some(target),
                            ..v
                        },
                        Some(
                            SyncActionView::Run(
                                status_cmd(
                                    v.work_path,
                                    seq!["checkout"@, target],
                                    v.silent,
                                ),
                            ),
                        ),
                    )
                },
                None => sync_fail(v, SyncStage::Protocol, None),
            }
        },
        (SyncPhase::CleanTree, SyncEventView::Status(Err(err))) => sync_fail(
            v,
            SyncStage::Clean,
            Some(err),
        ),
        (SyncPhase::CheckoutRev, SyncEventView::Status(Ok(ok))) => (
            SyncView { phase: SyncPhase::Done, ..v },
            None,
        ),
        (SyncPhase::CheckoutRev, SyncEventView::Status(Err(err))) => sync_fail(
            v,
            SyncStage::Checkout,
            Some(err),
        ),
        _ => sync_fail(v, SyncStage::Protocol, None),
    }
}

/// The view of an optional action.
pub open spec fn opt_action_view(r: Option<SyncAction>) -> Option<SyncActionView> {
    match r {
        Some(a) => Some(a@),
        None => None,
    }
}

impl Sync {
    /// Begin synchronizing: derive the workspace identity and path from
    /// the canonical source root, resolve the requested revision as far as
    /// the explicit flags go, and hand back the first action.
    pub fn new(
        git: Git,
        work_root: String,
        source_root: String,
        branch: Option<String>,
        commit: Option<String>,
        copy_remote: Option<String>,
    ) -> (r: (Sync, SyncAction))
        ensures
            r.0@ == sync_init(
                git.silent,
                work_root@,
                source_root@,
                branch.deep_view(),
                commit.deep_view(),
                copy_remote.deep_view(),
            ),
            r.1@ == sync_start_action(r.0@),
    {
        let identity = hash_bytes(source_root.as_str().as_bytes());
        let work_path = workspace_path(work_root.as_str(), identity.as_str());
        let (phase, rev): (SyncPhase, Option<GitRev>) = match (branch, commit) {
            (Some(b), _) => (SyncPhase::CheckWorkspace, Some(GitRev::Branch(b))),
            (None, Some(c)) => (SyncPhase::CheckWorkspace, Some(GitRev::Commit(c))),
            (None, None) => (SyncPhase::ResolveHeadName, None),
        };
        let machine = Sync {
            git,
            work_root,
            source_root,
            identity,
            work_path,
            copy_remote,
            copy_url: None,
            phase,
            rev,
            target: None,
            failure: None,
        };
        let action = if matches!(machine.phase, SyncPhase::ResolveHeadName) {
            SyncAction::Capture(machine.git.get_current_head(machine.source_root.as_str()))
        } else {
            SyncAction::CheckExists(machine.work_path.clone())
        };
        (machine, action)
    }

    /// Advance the machine on the host's answer, handing back the next
    /// action when one is needed.
    pub fn step(&mut self, e: SyncEvent) -> (r: Option<SyncAction>)
        ensures
            final(self)@ == sync_transition(old(self)@, e@).0,
            opt_action_view(r) == sync_transition(old(self)@, e@).1,
    {
        let g = self.git;
        match (self.phase, e) {
            (SyncPhase::ResolveHeadName, SyncEvent::Output(Ok(out))) => {
                let name = trim_end(out.as_str());
                let head_lit = String::from_str("HEAD");
                if !(name == head_lit) {
                    self.phase = SyncPhase::CheckWorkspace;
                    self.rev = Some(GitRev::Branch(name));
                    Some(SyncAction::CheckExists(self.work_path.clone()))
                } else {
                    self.phase = SyncPhase::ResolveHeadCommit;
                    Some(SyncAction::Capture(g.head_commit_query(self.source_root.as_str())))
                }
            },
            (SyncPhase::ResolveHeadName, SyncEvent::Output(Err(err))) => {
                self.fail(SyncStage::ResolveHead, Some(err))
            },
            (SyncPhase::ResolveHeadCommit, SyncEvent::Output(Ok(out))) => {
                let id = trim_end(out.as_str());
                self.phase = SyncPhase::CheckWorkspace;
                self.rev = Some(GitRev::Commit(id));
                Some(SyncAction::CheckExists(self.work_path.clone()))
            },
            (SyncPhase::ResolveHeadCommit, SyncEvent::Output(Err(err))) => {
                self.fail(SyncStage::ResolveHead, Some(err))
            },
            (SyncPhase::CheckWorkspace, SyncEvent::Exists(true)) => {
                self.phase = SyncPhase::SetRemote;
                let cmd = g.set_remote_url(
                    self.work_path.as_str(),
                    reserved_remote_name(),
                    self.source_root.as_str(),
                );
                Some(SyncAction::Run(cmd))
            },
            (SyncPhase::CheckWorkspace, SyncEvent::Exists(false)) => {
                self.phase = SyncPhase::CreateDir;
                Some(SyncAction::MakeDir(self.work_path.clone()))
            },
            (SyncPhase::SetRemote, SyncEvent::Status(Ok(ok))) => {
                self.phase = SyncPhase::FetchRemote;
                let cmd = g.fetch(self.work_path.as_str(), reserved_remote_name());
                Some(SyncAction::Run(cmd))
            },
            (SyncPhase::SetRemote, SyncEvent::Status(Err(GitError::Unknown(code)))) => {
                self.phase = SyncPhase::AddRemote;
                let cmd = g.add_remote(
                    self.work_path.as_str(),
                    reserved_remote_name(),
                    self.source_root.as_str(),
                );
                Some(SyncAction::Run(cmd))
            },
            (SyncPhase::SetRemote, SyncEvent::Status(Err(GitError::Execute))) => {
                self.fail(SyncStage::SetRemote, Some(GitError::Execute))
            },
            (SyncPhase::AddRemote, SyncEvent::Status(Ok(ok))) => {
                self.phase = SyncPhase::FetchRemote;
                let cmd = g.fetch(self.work_path.as_str(), reserved_remote_name());
                Some(SyncAction::Run(cmd))
            },
            (SyncPhase::AddRemote, SyncEvent::Status(Err(err))) => {
                self.fail(SyncStage::SetRemote, Some(err))
            },
            (SyncPhase::FetchRemote, SyncEvent::Status(Ok(ok))) => self.after_history(),
            (SyncPhase::FetchRemote, SyncEvent::Status(Err(err))) => {
                self.fail(SyncStage::Fetch, Some(err))
            },
            (SyncPhase::CreateDir, SyncEvent::Created(true)) => {
                self.phase = SyncPhase::CloneRepo;
                let cmd = g.clone_repo(
                    self.source_root.as_str(),
                    self.work_path.as_str(),
                    Some(reserved_remote_name()),
                );
                Some(SyncAction::Run(cmd))
            },
            (SyncPhase::CreateDir, SyncEvent::Created(false)) => {
                self.fail(SyncStage::CreateDir, None)
            },
            (SyncPhase::CloneRepo, SyncEvent::Status(Ok(ok))) => self.after_history(),
            (SyncPhase::CloneRepo, SyncEvent::Status(Err(err))) => {
                self.fail(SyncStage::Clone, Some(err))
            },
            (SyncPhase::CopyUrl, SyncEvent::Output(Ok(out))) => {
                if self.copy_remote.is_some() {
                    let url = trim_end(out.as_str());
                    let cmd = match &self.copy_remote {
                        Some(name) => g.set_remote_url(
                            self.work_path.as_str(),
                            name.as_str(),
                            url.as_str(),
                        ),
                        None => unreached(),
                    };
                    self.phase = SyncPhase::SetCopyRemote;
                    self.copy_url = Some(url);
                    Some(SyncAction::Run(cmd))
                } else {
                    self.fail(SyncStage::Protocol, None)
                }
            },
            (SyncPhase::CopyUrl, SyncEvent::Output(Err(err))) => {
                self.fail(SyncStage::CopyRemote, Some(err))
            },
            (SyncPhase::SetCopyRemote, SyncEvent::Status(Ok(ok))) => self.enter_reset(),
            (SyncPhase::SetCopyRemote, SyncEvent::Status(Err(GitError::Unknown(code)))) => {
                if self.copy_remote.is_some() && self.copy_url.is_some() {
                    let cmd = match (&self.copy_remote, &self.copy_url) {
                        (Some(name), Some(url)) => g.add_remote(
                            self.work_path.as_str(),
                            name.as_str(),
                            url.as_str(),
                        ),
                        _ => unreached(),
                    };
                    self.phase = SyncPhase::AddCopyRemote;
                    Some(SyncAction::Run(cmd))
                } else {
                    self.fail(SyncStage::Protocol, None)
                }
            },
            (SyncPhase::SetCopyRemote, SyncEvent::Status(Err(GitError::Execute))) => {
                self.fail(SyncStage::CopyRemote, Some(GitError::Execute))
            },
            (SyncPhase::AddCopyRemote, SyncEvent::Status(Ok(ok))) => self.enter_reset(),
            (SyncPhase::AddCopyRemote, SyncEvent::Status(Err(err))) => {
                self.fail(SyncStage::CopyRemote, Some(err))
            },
            (SyncPhase::ResetTree, SyncEvent::Status(Ok(ok))) => {
                self.phase = SyncPhase::CleanTree;
                let mut cleanse = g.cleanse(self.work_path.as_str());
                let clean = cleanse.pop().unwrap();
                Some(SyncAction::Run(clean))
            },
            (SyncPhase::ResetTree, SyncEvent::Status(Err(err))) => {
                self.fail(SyncStage::Reset, Some(err))
            },
            (SyncPhase::CleanTree, SyncEvent::Status(Ok(ok))) => {
                if self.rev.is_some() {
                    let target = match &self.rev {
                        Some(rev) => rev.qualified(reserved_remote_name()),
                        None => unreached(),
                    };
                    let target_text = String::from_str(target.as_str());
                    let cmd = g.checkout(self.work_path.as_str(), target_text.as_str());
                    self.phase = SyncPhase::CheckoutRev;
                    self.target = Some(target_text);
                    Some(SyncAction::Run(cmd))
                } else {
                    self.fail(SyncStage::Protocol, None)
                }
            },
            (SyncPhase::CleanTree, SyncEvent::Status(Err(err))) => {
                self.fail(SyncStage::Clean, Some(err))
            },
            (SyncPhase::CheckoutRev, SyncEvent::Status(Ok(ok))) => {
                self.phase = SyncPhase::Done;
                None
            },
            (SyncPhase::CheckoutRev, SyncEvent::Status(Err(err))) => {
                self.fail(SyncStage::Checkout, Some(err))
            },
            (_, _) => self.fail(SyncStage::Protocol, None),
        }
    }

    fn fail(&mut self, stage: SyncStage, error: Option<GitError>) -> (r: Option<SyncAction>)
        ensures
            (final(self)@, opt_action_view(r)) == sync_fail(old(self)@, stage, error),
    {
        self.phase = SyncPhase::Failed;
        self.failure = Some(SyncError { stage, error });
        None
    }

    fn after_history(&mut self) -> (r: Option<SyncAction>)
        ensures
            (final(self)@, opt_action_view(r)) == sync_after_history(old(self)@),
    {
        if self.copy_remote.is_some() {
            let cmd = match &self.copy_remote {
                Some(name) => {
                    let g = self.git;
                    g.get_remote_url(self.source_root.as_str(), name.as_str())
                },
                None => unreached(),
            };
            self.phase = SyncPhase::CopyUrl;
            Some(SyncAction::Capture(cmd))
        } else {
            self.enter_reset()
        }
    }

    fn enter_reset(&mut self) -> (r: Option<SyncAction>)
        ensures
            (final(self)@, opt_action_view(r)) == sync_enter_reset(old(self)@),
    {
        self.phase = SyncPhase::ResetTree;
        let g = self.git;
        let mut cleanse = g.cleanse(self.work_path.as_str());
        let reset = cleanse.remove(0);
        Some(SyncAction::Run(reset))
    }

    /// Whether synchronization finished and the workspace is ready.
    pub fn is_done(&self) -> (b: bool)
        ensures
            b == (self@.phase == SyncPhase::Done),
    {
        matches!(self.phase, SyncPhase::Done)
    }

    /// Whether synchronization aborted.
    pub fn is_failed(&self) -> (b: bool)
        ensures
            b == (self@.phase == SyncPhase::Failed),
    {
        matches!(self.phase, SyncPhase::Failed)
    }
}

/// The machine's view after consuming a sequence of host answers.
pub open spec fn sync_run(v: SyncView, es: Seq<SyncEventView>) -> SyncView
    decreases es.len(),
{
    if es.len() == 0 {
        v
    } else {
        sync_run(sync_transition(v, es[0]).0, es.drop_first())
    }
}

/// The actions a run emits: entry `i` is what the machine asked for after
/// consuming answer `i`.
pub open spec fn sync_trace(v: SyncView, es: Seq<SyncEventView>) -> Seq<Option<SyncActionView>>
    decreases es.len(),
{
    if es.len() == 0 {
        Seq::<Option<SyncActionView>>::empty()
    } else {
        seq![sync_transition(v, es[0]).1] + sync_trace(
            sync_transition(v, es[0]).0,
            es.drop_first(),
        )
    }
}

/// True of an emitted action that runs the engine with the given argument
/// vector.
pub open spec fn emits_run_args(a: Option<SyncActionView>, args: Seq<Seq<char>>) -> bool {
    match a {
        Some(SyncActionView::Run(c)) => c.args == args,
        _ => false,
    }
}

/// True of an emitted action that clones the source repository.
pub open spec fn emits_clone(a: Option<SyncActionView>) -> bool {
    match a {
        Some(SyncActionView::Run(c)) => c.args.len() > 0 && c.args[0] == "clone"@,
        _ => false,
    }
}

/// True of an emitted hard reset.
pub open spec fn emits_reset(a: Option<SyncActionView>) -> bool {
    emits_run_args(a, seq!["reset"@, "--hard"@])
}

/// True of an emitted untracked-file clean.
pub open spec fn emits_clean(a: Option<SyncActionView>) -> bool {
    emits_run_args(a, seq!["clean"@, "-fdx"@])
}

/// True of an emitted checkout.
pub open spec fn emits_checkout(a: Option<SyncActionView>) -> bool {
    match a {
        Some(SyncActionView::Run(c)) => c.args.len() > 0 && c.args[0] == "checkout"@,
        _ => false,
    }
}

/// The words that begin the argument vectors of the engine invocations the
/// synchronizer emits are pairwise distinct, so an emitted action is
/// recognized by its first argument.
proof fn lemma_cmd_words_distinct()
    ensures
        "rev-parse"@ != "remote"@,
        "rev-parse"@ != "fetch"@,
        "rev-parse"@ != "clone"@,
        "rev-parse"@ != "reset"@,
        "rev-parse"@ != "clean"@,
        "rev-parse"@ != "checkout"@,
        "remote"@ != "fetch"@,
        "remote"@ != "clone"@,
        "remote"@ != "reset"@,
        "remote"@ != "clean"@,
        "remote"@ != "checkout"@,
        "fetch"@ != "clone"@,
        "fetch"@ != "reset"@,
        "fetch"@ != "clean"@,
        "fetch"@ != "checkout"@,
        "clone"@ != "reset"@,
        "clone"@ != "clean"@,
        "clone"@ != "checkout"@,
        "reset"@ != "clean"@,
        "reset"@ != "checkout"@,
        "clean"@ != "checkout"@,
{
    reveal_strlit("rev-parse");
    reveal_strlit("remote");
    reveal_strlit("fetch");
    reveal_strlit("clone");
    reveal_strlit("reset");
    reveal_strlit("clean");
    reveal_strlit("checkout");
    assert("rev-parse"@.len() == 9);
    assert("remote"@.len() == 6);
    assert("checkout"@.len() == 8);
    assert("fetch"@.len() == 5);
    assert("clone"@.len() == 5);
    assert("reset"@.len() == 5);
    assert("clean"@.len() == 5);
    assert("fetch"@[0] == 'f');
    assert("clone"@[0] == 'c');
    assert("reset"@[0] == 'r');
    assert("clean"@[0] == 'c');
    assert("clone"@[2] == 'o');
    assert("clean"@[2] == 'e');
}

/// A run emits exactly one action slot per host answer.
pub proof fn lemma_sync_trace_len(v: SyncView, es: Seq<SyncEventView>)
    ensures
        sync_trace(v, es).len() == es.len(),
    decreases es.len(),
{
    if es.len() > 0 {
        lemma_sync_trace_len(sync_transition(v, es[0]).0, es.drop_first());
    }
}

/// True of a host answer that confirms a status invocation succeeded.
pub open spec fn is_ok_status(e: SyncEventView) -> bool {
    e matches SyncEventView::Status(Ok(_))
}

/// Rerunning the synchronizer is deterministic: with the same starting
/// view and the same host answers, a second run traverses the same states
/// and emits exactly the same actions, so an unchanged source repository
/// and revision leave the workspace in the same checked-out state.
pub proof fn lemma_sync_deterministic(
    v1: SyncView,
    es1: Seq<SyncEventView>,
    v2: SyncView,
    es2: Seq<SyncEventView>,
)
    requires
        v1 == v2,
        es1 == es2,
    ensures
        sync_run(v1, es1) == sync_run(v2, es2),
        sync_trace(v1, es1) == sync_trace(v2, es2),
{
}

/// A run against an existing workspace never clones: as long as the host
/// never answers that the workspace directory is missing, no emitted
/// action is a clone — the history is refreshed by fetch alone.
pub proof fn lemma_existing_workspace_never_cloned(v: SyncView, es: Seq<SyncEventView>)
    requires
        v.phase != SyncPhase::CreateDir,
        v.phase != SyncPhase::CloneRepo,
        forall|i: int| 0 <= i < es.len() ==> es[i] != SyncEventView::Exists(false),
    ensures
        forall|j: int| 0 <= j < sync_trace(v, es).len() ==> !emits_clone(sync_trace(v, es)[j]),
    decreases es.len(),
{
    lemma_cmd_words_distinct();
    if es.len() > 0 {
        let (v2, a) = sync_transition(v, es[0]);
        assert(!emits_clone(a));
        assert(v2.phase != SyncPhase::CreateDir);
        assert(v2.phase != SyncPhase::CloneRepo);
        assert(forall|i: int|
            0 <= i < es.drop_first().len() ==> es.drop_first()[i] != SyncEventView::Exists(
                false,
            ));
        lemma_existing_workspace_never_cloned(v2, es.drop_first());
        let tr = sync_trace(v, es);
        let rest = sync_trace(v2, es.drop_first());
        lemma_sync_trace_len(v, es);
        lemma_sync_trace_len(v2, es.drop_first());
        assert(forall|j: int| 1 <= j < tr.len() ==> tr[j] == rest[j - 1]);
        assert(tr[0] == a);
    }
}

/// The unconditional clean runs only under the cover of a completed hard
/// reset: whenever a run emits the clean of the workspace tree, it emitted
/// the hard reset earlier and the host has just confirmed the reset
/// succeeded. Clean never has to reason about locally modified tracked
/// files.
pub proof fn lemma_clean_preceded_by_reset(v: SyncView, es: Seq<SyncEventView>)
    requires
        v.phase != SyncPhase::ResetTree,
        v.phase != SyncPhase::CleanTree,
    ensures
        forall|j: int|
            0 <= j < sync_trace(v, es).len() && emits_clean(sync_trace(v, es)[j]) ==> (is_ok_status(es[j]) && exists|i: int|
                0 <= i < j && emits_reset(sync_trace(v, es)[i])),
    decreases es.len(),
{
    lemma_cmd_words_distinct();
    if es.len() > 0 {
        let (v2, a) = sync_transition(v, es[0]);
        let tr = sync_trace(v, es);
        let rest = sync_trace(v2, es.drop_first());
        lemma_sync_trace_len(v, es);
        lemma_sync_trace_len(v2, es.drop_first());
        assert(forall|j: int| 1 <= j < tr.len() ==> tr[j] == rest[j - 1]);
        assert(tr[0] == a);
        assert(!emits_clean(a));
        if v2.phase == SyncPhase::ResetTree {
            assert(emits_reset(a));
            assert forall|j: int|
                1 <= j < tr.len() && emits_clean(tr[j]) implies (is_ok_status(es[j]) && exists|i: int| 0 <= i < j && emits_reset(tr[i])) by {
                assert(es.drop_first()[j - 1] == es[j]);
                lemma_clean_right_after_reset(v2, es.drop_first(), j - 1);
                assert(emits_reset(tr[0]));
            }
        } else {
            assert(v2.phase != SyncPhase::CleanTree);
            lemma_clean_preceded_by_reset(v2, es.drop_first());
            assert forall|j: int|
                1 <= j < tr.len() && emits_clean(tr[j]) implies (is_ok_status(es[j]) && exists|i: int| 0 <= i < j && emits_reset(tr[i])) by {
                assert(es.drop_first()[j - 1] == es[j]);
                assert(emits_clean(rest[j - 1]));
                assert(is_ok_status(es.drop_first()[j - 1]));
                let i0 = choose|i0: int| 0 <= i0 < j - 1 && emits_reset(rest[i0]);
                assert(emits_reset(tr[i0 + 1]));
            }
        }
    }
}

/// In a run that starts in the reset phase, an emitted clean is answered
/// by the host's confirmation that the reset succeeded.
proof fn lemma_clean_right_after_reset(v: SyncView, es: Seq<SyncEventView>, j: int)
    requires
        v.phase == SyncPhase::ResetTree,
        0 <= j < sync_trace(v, es).len(),
        emits_clean(sync_trace(v, es)[j]),
    ensures
        is_ok_status(es[j]),
    decreases es.len(),
{
    lemma_cmd_words_distinct();
    let (v2, a) = sync_transition(v, es[0]);
    let tr = sync_trace(v, es);
    let rest = sync_trace(v2, es.drop_first());
    lemma_sync_trace_len(v, es);
    lemma_sync_trace_len(v2, es.drop_first());
    assert(forall|k: int| 1 <= k < tr.len() ==> tr[k] == rest[k - 1]);
    assert(tr[0] == a);
    if j == 0 {
        if !is_ok_status(es[0]) {
            assert(!emits_clean(a));
        }
    } else {
        if is_ok_status(es[0]) {
            assert(v2.phase == SyncPhase::CleanTree);
            lemma_clean_never_again(v2, es.drop_first());
            assert(!emits_clean(rest[j - 1]));
            assert(false);
        } else {
            assert(v2.phase == SyncPhase::Failed);
            lemma_clean_never_again(v2, es.drop_first());
            assert(!emits_clean(rest[j - 1]));
            assert(false);
        }
    }
}

/// Once the machine has left the reset phase, it never emits another
/// clean in the same run.
proof fn lemma_clean_never_again(v: SyncView, es: Seq<SyncEventView>)
    requires
        v.phase == SyncPhase::CleanTree || v.phase == SyncPhase::CheckoutRev || v.phase
            == SyncPhase::Done || v.phase == SyncPhase::Failed,
    ensures
        forall|j: int| 0 <= j < sync_trace(v, es).len() ==> !emits_clean(sync_trace(v, es)[j]),
    decreases es.len(),
{
    lemma_cmd_words_distinct();
    if es.len() > 0 {
        let (v2, a) = sync_transition(v, es[0]);
        assert(!emits_clean(a));
        lemma_clean_never_again(v2, es.drop_first());
        let tr = sync_trace(v, es);
        let rest = sync_trace(v2, es.drop_first());
        lemma_sync_trace_len(v, es);
        lemma_sync_trace_len(v2, es.drop_first());
        assert(forall|j: int| 1 <= j < tr.len() ==> tr[j] == rest[j - 1]);
        assert(tr[0] == a);
    }
}

/// A checkout is emitted only once the pristine-state restoration is
/// complete: whenever a run emits a checkout, it emitted the clean earlier
/// and the host has just confirmed the clean succeeded.
pub proof fn lemma_checkout_preceded_by_clean(v: SyncView, es: Seq<SyncEventView>)
    requires
        v.phase != SyncPhase::CleanTree,
        v.phase != SyncPhase::CheckoutRev,
    ensures
        forall|j: int|
            0 <= j < sync_trace(v, es).len() && emits_checkout(sync_trace(v, es)[j]) ==> (is_ok_status(es[j]) && exists|i: int|
                0 <= i < j && emits_clean(sync_trace(v, es)[i])),
    decreases es.len(),
{
    lemma_cmd_words_distinct();
    if es.len() > 0 {
        let (v2, a) = sync_transition(v, es[0]);
        let tr = sync_trace(v, es);
        let rest = sync_trace(v2, es.drop_first());
        lemma_sync_trace_len(v, es);
        lemma_sync_trace_len(v2, es.drop_first());
        assert(forall|j: int| 1 <= j < tr.len() ==> tr[j] == rest[j - 1]);
        assert(tr[0] == a);
        assert(!emits_checkout(a));
        if v2.phase == SyncPhase::CleanTree {
            assert(emits_clean(a));
            assert forall|j: int|
                1 <= j < tr.len() && emits_checkout(tr[j]) implies (is_ok_status(es[j]) && exists|i: int|
                0 <= i < j && emits_clean(tr[i])) by {
                assert(es.drop_first()[j - 1] == es[j]);
                lemma_checkout_right_after_clean(v2, es.drop_first(), j - 1);
                assert(emits_clean(tr[0]));
            }
        } else {
            assert(v2.phase != SyncPhase::CheckoutRev);
            lemma_checkout_preceded_by_clean(v2, es.drop_first());
            assert forall|j: int|
                1 <= j < tr.len() && emits_checkout(tr[j]) implies (is_ok_status(es[j]) && exists|i: int|
                0 <= i < j && emits_clean(tr[i])) by {
                assert(es.drop_first()[j - 1] == es[j]);
                assert(emits_checkout(rest[j - 1]));
                assert(is_ok_status(es.drop_first()[j - 1]));
                let i0 = choose|i0: int| 0 <= i0 < j - 1 && emits_clean(rest[i0]);
                assert(emits_clean(tr[i0 + 1]));
            }
        }
    }
}

/// In a run that starts in the clean phase, an emitted checkout is
/// answered by the host's confirmation that the clean succeeded.
proof fn lemma_checkout_right_after_clean(v: SyncView, es: Seq<SyncEventView>, j: int)
    requires
        v.phase == SyncPhase::CleanTree,
        0 <= j < sync_trace(v, es).len(),
        emits_checkout(sync_trace(v, es)[j]),
    ensures
        is_ok_status(es[j]),
    decreases es.len(),
{
    lemma_cmd_words_distinct();
    let (v2, a) = sync_transition(v, es[0]);
    let tr = sync_trace(v, es);
    let rest = sync_trace(v2, es.drop_first());
    lemma_sync_trace_len(v, es);
    lemma_sync_trace_len(v2, es.drop_first());
    assert(forall|k: int| 1 <= k < tr.len() ==> tr[k] == rest[k - 1]);
    assert(tr[0] == a);
    if j == 0 {
        if !is_ok_status(es[0]) {
            assert(!emits_checkout(a));
        }
    } else {
        lemma_checkout_never_again(v2, es.drop_first());
        assert(!emits_checkout(rest[j - 1]));
        assert(false);
    }
}

/// Once the machine has left the clean phase, it never emits another
/// checkout in the same run.
proof fn lemma_checkout_never_again(v: SyncView, es: Seq<SyncEventView>)
    requires
        v.phase == SyncPhase::CheckoutRev || v.phase == SyncPhase::Done || v.phase
            == SyncPhase::Failed,
    ensures
        forall|j: int|
            0 <= j < sync_trace(v, es).len() ==> !emits_checkout(sync_trace(v, es)[j]),
    decreases es.len(),
{
    lemma_cmd_words_distinct();
    if es.len() > 0 {
        let (v2, a) = sync_transition(v, es[0]);
        assert(!emits_checkout(a));
        lemma_checkout_never_again(v2, es.drop_first());
        let tr = sync_trace(v, es);
        let rest = sync_trace(v2, es.drop_first());
        lemma_sync_trace_len(v, es);
        lemma_sync_trace_len(v2, es.drop_first());
        assert(forall|j: int| 1 <= j < tr.len() ==> tr[j] == rest[j - 1]);
        assert(tr[0] == a);
    }
}

/// The checkout-target invariant: from the checkout phase on, the machine
/// carries a resolved revision, and the ref it checked out is exactly that
/// revision, qualified through the reserved tracking remote when it is a
/// branch.
pub open spec fn target_consistent(v: SyncView) -> bool {
    (v.phase == SyncPhase::CheckoutRev || v.phase == SyncPhase::Done) ==> (v.rev is Some
        && v.target == Some(rev_text(qualify_spec(v.rev->0, reserved_remote()))))
}

/// Every transition preserves the checkout-target invariant.
pub proof fn lemma_transition_keeps_target_consistent(v: SyncView, e: SyncEventView)
    requires
        target_consistent(v),
    ensures
        target_consistent(sync_transition(v, e).0),
{
}

/// A run that finishes has checked out exactly the revision it resolved:
/// the branch qualified through the reserved remote, or the bare commit
/// identifier.
pub proof fn lemma_done_checked_out_resolved_revision(v: SyncView, es: Seq<SyncEventView>)
    requires
        target_consistent(v),
        sync_run(v, es).phase == SyncPhase::Done,
    ensures
        sync_run(v, es).rev is Some,
        sync_run(v, es).target == Some(
            rev_text(qualify_spec(sync_run(v, es).rev->0, reserved_remote())),
        ),
    decreases es.len(),
{
    if es.len() > 0 {
        let (v2, _) = sync_transition(v, es[0]);
        lemma_transition_keeps_target_consistent(v, es[0]);
        lemma_done_checked_out_resolved_revision(v2, es.drop_first());
    }
}

} // verus!

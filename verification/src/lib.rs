//! Disposable git workspaces: derive a private working copy for a source
//! repository, keep it synchronized, and guard it with a process lock.

pub mod config;
pub mod fserr;
pub mod git;
pub mod hash;
pub mod lock;
pub mod paths;
pub mod sync;
pub mod text;

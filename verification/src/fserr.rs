//! Errors for the host's filesystem helpers: what went wrong and at which
//! path.

use vstd::prelude::*;

verus! {

/// How a file operation failed.
#[derive(Debug, Clone, PartialEq, Eq)]
pub enum FileErrorKind {
    /// The file does not exist.
    NotFound,
    /// Any other failure, carrying the operating system's own description.
    Other(String),
}

/// A failed file operation: what went wrong, and the path it concerned.
#[derive(Debug)]
pub struct FileError {
    pub kind: FileErrorKind,
    pub path: String,
}

/// The text describing a file error: the missing file's path after a fixed
/// prefix, or the operating system's own description.
pub open spec fn file_error_message(kind: FileErrorKind, path: Seq<char>) -> Seq<char> {
    match kind {
        FileErrorKind::NotFound => "File not found: "@ + path,
        FileErrorKind::Other(m) => m@,
    }
}

impl FileError {
    /// Bundle a failure kind with the path it concerned.
    pub fn new(kind: FileErrorKind, path: String) -> (r: FileError)
        ensures
            r.kind == kind,
            r.path@ == path@,
    {
        FileError { kind, path }
    }

    /// A human-readable description of the failure.
    pub fn message(&self) -> (r: String)
        ensures
            r@ == file_error_message(self.kind, self.path@),
    {
        match &self.kind {
            FileErrorKind::NotFound => {
                let mut m = String::from_str("File not found: ");
                m.append(self.path.as_str());
                m
            },
            FileErrorKind::Other(text) => text.clone(),
        }
    }
}

} // verus!

//! What the caller reports of the work that it did outside: writing a file,
//! running a child process.

use crate::error::{SmartCommitterError, SmartCommitterErrorKind, SmartCommitterErrorView};
use vstd::prelude::*;
use vstd::string::*;

verus! {

/// What became of the attempt to write a file.
#[derive(Debug, Clone, PartialEq, Eq)]
pub enum FileWrite {
    /// The file could not be created.
    CreateFailed { cause: String },
    /// The file was created and the content could not be written.
    WriteFailed { cause: String },
    /// The file holds the content.
    Written,
}

/// An input/output error about the file or directory at `path`.
pub open spec fn path_error(what: Seq<char>, path: Seq<char>, cause: Seq<char>)
    -> SmartCommitterErrorView {
    SmartCommitterErrorView {
        source: Some(cause),
        kind: SmartCommitterErrorKind::IOError,
        message: what + path,
    }
}

/// An input/output error about the file or directory at `path`.
pub fn make_path_error(what: &str, path: &str, cause: String) -> (e: SmartCommitterError)
    ensures
        e@ == path_error(what@, path@, cause@),
{
    let mut message: String = what.to_owned();
    message.append(path);
    SmartCommitterError::new(SmartCommitterErrorKind::IOError, message, Some(cause))
}

/// What became of a child process.
#[derive(Debug, Clone, PartialEq, Eq)]
pub enum ChildRun {
    /// It could not be started.
    NotLaunched { cause: String },
    /// It was started, and how it ended could not be learned.
    Lost { cause: String },
    /// It ended, with this exit status where it has one.
    Exited { status: Option<i32> },
}

} // verus!

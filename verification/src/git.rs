//! What the version-control command told us: where the repository is and
//! what is staged.

use crate::error::{
    text_outcome, SmartCommitterError, SmartCommitterErrorKind, SmartCommitterErrorView,
};
use crate::text::{decimal, decimal_text, texts};
use vstd::prelude::*;
use vstd::string::*;
use vstd::utf8::{decode_utf8, valid_utf8};

verus! {

/// The program of the version-control commands.
pub const GIT: &'static str = "git";

/// The name, in a directory, of what marks it as the root of a repository.
pub const REPOSITORY_MARKER: &'static str = ".git";

/// The message of the error for a current directory that cannot be told.
pub const NO_CURRENT_DIRECTORY: &'static str = "Failed to access the current directory.";

/// The message of the error for a diff command that could not be run.
pub const DIFF_NOT_RUN: &'static str = "Failed to fetch diff output from git.";

/// The words before the exit code in the message of the error for a diff
/// command that failed.
pub const DIFF_FAILED: &'static str = "VCS failed with exit code: ";

/// The message of the error for a diff that is not UTF-8.
pub const DIFF_UNREADABLE: &'static str = "Failed to parse Git diff output.";

/// The exit code that stands for a child process that ended without one.
pub const NO_EXIT_CODE: i32 = 255;

/// The exit code of a child process: its own where it has one, else 255.
pub open spec fn exit_code(status: Option<i32>) -> i32 {
    match status {
        Some(code) => code,
        None => NO_EXIT_CODE,
    }
}

/// The exit code of a child process: its own where it has one, else 255.
pub fn exit_code_of(status: Option<i32>) -> (code: i32)
    ensures
        code == exit_code(status),
{
    match status {
        Some(code) => code,
        None => NO_EXIT_CODE,
    }
}

/// What became of the search for the marker of a repository in the current
/// directory and in the directories above it.
#[derive(Debug, Clone, PartialEq, Eq)]
pub enum RootSearch {
    /// The current directory could not be told.
    NoCurrentDirectory { cause: String },
    /// Whether the marker is there, for the current directory first, then
    /// for its parent, and so on up to the topmost directory.
    Probed { markers: Vec<bool> },
}

/// Whether `i` is the first place at which a marker was found.
pub open spec fn is_nearest(markers: Seq<bool>, i: int) -> bool {
    &&& 0 <= i < markers.len()
    &&& markers[i]
    &&& forall|j: int| 0 <= j < i ==> !#[trigger] markers[j]
}

/// The error for a current directory that could not be told.
pub open spec fn no_current_directory(cause: Seq<char>) -> SmartCommitterErrorView {
    SmartCommitterErrorView {
        source: Some(cause),
        kind: SmartCommitterErrorKind::IOError,
        message: NO_CURRENT_DIRECTORY@,
    }
}

/// Finds the root of the repository that the current directory is in: the
/// nearest directory, from the current one upwards, that holds the marker.
/// The result counts the steps up from the current directory; it is `None`
/// where no directory on the way holds the marker.
pub fn find_repo_root(search: RootSearch) -> (r: Result<Option<usize>, SmartCommitterError>)
    ensures
        match search {
            RootSearch::NoCurrentDirectory { cause } => r is Err && r->Err_0@
                == no_current_directory(cause@),
            RootSearch::Probed { markers } => match r {
                Ok(Some(i)) => is_nearest(markers@, i as int),
                Ok(None) => forall|j: int| 0 <= j < markers@.len() ==> !#[trigger] markers@[j],
                Err(_) => false,
            },
        },
{
    match search {
        RootSearch::NoCurrentDirectory { cause } => Err(
            SmartCommitterError::new(
                SmartCommitterErrorKind::IOError,
                NO_CURRENT_DIRECTORY.to_owned(),
                Some(cause),
            ),
        ),
        RootSearch::Probed { markers } => {
            let mut i: usize = 0;
            while i < markers.len()
                invariant
                    search == (RootSearch::Probed { markers }),
                    i <= markers@.len(),
                    forall|j: int| 0 <= j < i ==> !#[trigger] markers@[j],
                decreases markers@.len() - i,
            {
                if markers[i] {
                    return Ok(Some(i));
                }
                i = i + 1;
            }
            Ok(None)
        },
    }
}

/// The arguments of the command that prints the staged changes.
pub open spec fn diff_arguments() -> Seq<Seq<char>> {
    seq!["diff"@, "--cached"@]
}

/// The arguments of the command that makes the commit with the message in
/// the file `message_file`.
pub open spec fn commit_arguments(message_file: Seq<char>) -> Seq<Seq<char>> {
    seq!["commit"@, "-F"@, message_file]
}

/// The program and the arguments of the command that prints the staged
/// changes: the difference between what is staged and the last commit.
pub fn diff_command() -> (run: (String, Vec<String>))
    ensures
        run.0@ == GIT@,
        texts(run.1@) == diff_arguments(),
{
    let mut arguments: Vec<String> = Vec::new();
    arguments.push("diff".to_owned());
    arguments.push("--cached".to_owned());
    assert(texts(arguments@) =~= diff_arguments());
    (GIT.to_owned(), arguments)
}

/// The program and the arguments of the command that makes the commit and
/// takes its message from the file `message_file`.
pub fn commit_command(message_file: &str) -> (run: (String, Vec<String>))
    ensures
        run.0@ == GIT@,
        texts(run.1@) == commit_arguments(message_file@),
{
    let mut arguments: Vec<String> = Vec::new();
    arguments.push("commit".to_owned());
    arguments.push("-F".to_owned());
    arguments.push(message_file.to_owned());
    assert(texts(arguments@) =~= commit_arguments(message_file@));
    (GIT.to_owned(), arguments)
}

/// What became of the command that prints the staged changes.
#[derive(Debug, Clone, PartialEq, Eq)]
pub enum DiffRun {
    /// The command could not be started.
    NotRun { cause: String },
    /// The command ran: its exit status, where it has one, and what it
    /// printed.
    Finished { status: Option<i32>, output: Vec<u8> },
}

/// The text of the error that `String::from_utf8` gives for bytes that are
/// not UTF-8.
pub uninterp spec fn utf8_error_text(bytes: Seq<u8>) -> Seq<char>;

/// Decodes bytes by `String::from_utf8` of the standard library. Not
/// verified: the contract says that the bytes are accepted exactly when they
/// are UTF-8, that the string then holds the characters they encode, and
/// that otherwise the text of the error is the one named above.
#[verifier::external_body]
fn string_from_utf8(bytes: Vec<u8>) -> (r: Result<String, String>)
    ensures
        match r {
            Ok(text) => valid_utf8(bytes@) && text@ == decode_utf8(bytes@),
            Err(cause) => !valid_utf8(bytes@) && cause@ == utf8_error_text(bytes@),
        },
{
    match String::from_utf8(bytes) {
        Ok(text) => Ok(text),
        Err(e) => Err(e.to_string()),
    }
}

/// An error of the version-control command.
pub open spec fn vcs_error(message: Seq<char>, source: Option<Seq<char>>)
    -> SmartCommitterErrorView {
    SmartCommitterErrorView { source, kind: SmartCommitterErrorKind::VCSError, message }
}

/// The staged changes, or the error, that a run of the diff command gives.
pub open spec fn diff_of(run: DiffRun) -> Result<Seq<char>, SmartCommitterErrorView> {
    match run {
        DiffRun::NotRun { cause } => Err(
            SmartCommitterErrorView {
                source: Some(cause@),
                kind: SmartCommitterErrorKind::IOError,
                message: DIFF_NOT_RUN@,
            },
        ),
        DiffRun::Finished { status, output } => if exit_code(status) != 0 {
            Err(
                vcs_error(
                    DIFF_FAILED@ + decimal(exit_code(status) as int),
                    None,
                ),
            )
        } else if valid_utf8(output@) {
            Ok(decode_utf8(output@))
        } else {
            Err(vcs_error(DIFF_UNREADABLE@, Some(utf8_error_text(output@))))
        },
    }
}

/// The staged changes as text, from what the diff command did. Where the
/// command could not be started, that is an input/output error, as for
/// every process that cannot be started. Where it ended with another exit
/// code than 0, and where what it printed is not UTF-8, the error is of the
/// version-control kind.
pub fn get_diff(run: DiffRun) -> (r: Result<String, SmartCommitterError>)
    ensures
        text_outcome(r) == diff_of(run),
{
    match run {
        DiffRun::NotRun { cause } => Err(
            SmartCommitterError::new(
                SmartCommitterErrorKind::IOError,
                DIFF_NOT_RUN.to_owned(),
                Some(cause),
            ),
        ),
        DiffRun::Finished { status, output } => {
            let code: i32 = exit_code_of(status);
            if code != 0 {
                let mut message: String = DIFF_FAILED.to_owned();
                let numeral: String = decimal_text(code);
                message.append(numeral.as_str());
                return Err(
                    SmartCommitterError::new(SmartCommitterErrorKind::VCSError, message, None),
                );
            }
            match string_from_utf8(output) {
                Ok(text) => Ok(text),
                Err(cause) => Err(
                    SmartCommitterError::new(
                        SmartCommitterErrorKind::VCSError,
                        DIFF_UNREADABLE.to_owned(),
                        Some(cause),
                    ),
                ),
            }
        },
    }
}

} // verus!

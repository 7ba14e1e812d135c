//! Handing the drafted message over: to the commit command in plain mode,
//! to an editor in editor mode.

use crate::config::{EditorConfig, EditorConfigView};
use crate::error::{
    text_outcome, SmartCommitterError, SmartCommitterErrorKind, SmartCommitterErrorView,
};
use crate::git::{diff_of, exit_code, exit_code_of, DiffRun};
use crate::outcome::{make_path_error, path_error, ChildRun, FileWrite};
use crate::text::{lemma_split_pieces, split_at_white_space, split_white_space, texts};
use vstd::prelude::*;
use vstd::string::*;

verus! {

/// The words before the path in the message of the error for a file that
/// could not be opened or created.
pub const FILE_OPEN_FAILED: &'static str = "Failed to open file: ";

/// The words before the path in the message of the error for a file that
/// could not be written.
pub const FILE_WRITE_FAILED: &'static str = "Failed to write file: ";

/// The message of the error for an editor that could not be started.
pub const EDITOR_NOT_LAUNCHED: &'static str = "Failed to launch the editor";

/// The message of the error for an editor whose end could not be learned.
pub const EDITOR_LOST: &'static str = "Failed to get editor result";

/// The message of the error for a commit command that could not be started.
pub const COMMIT_NOT_LAUNCHED: &'static str = "Failed to launch the commit command";

/// The message of the error for a commit command whose end could not be
/// learned.
pub const COMMIT_LOST: &'static str = "Failed to get commit result";

/// The file, inside the directory of the repository's metadata, that holds
/// the message for the commit command in plain mode. The path starts at the
/// root of the repository.
pub const SCRATCH_FILE: &'static str = ".git/SMART_COMMITTER_MSG";

/// What plain mode does with a drafted message.
#[derive(Debug, Clone, PartialEq, Eq)]
pub struct PlainDelivery {
    /// The file to write, and then to name to the commit command as the
    /// source of the message.
    pub message_file: String,
    /// What to write to it.
    pub content: String,
}

pub struct PlainDeliveryView {
    pub message_file: Seq<char>,
    pub content: Seq<char>,
}

impl View for PlainDelivery {
    type V = PlainDeliveryView;

    open spec fn view(&self) -> PlainDeliveryView {
        PlainDeliveryView { message_file: self.message_file@, content: self.content@ }
    }
}

/// Plain mode: the drafted message goes, as it is, to the scratch file, and
/// the commit command is then run with that file.
pub fn plain_command_mode(msg: &str) -> (delivery: PlainDelivery)
    ensures
        delivery@ == (PlainDeliveryView { message_file: SCRATCH_FILE@, content: msg@ }),
{
    PlainDelivery { message_file: SCRATCH_FILE.to_owned(), content: msg.to_owned() }
}

/// The result of writing a message to the file `filename`.
pub open spec fn saved_message(filename: Seq<char>, write: FileWrite) -> Result<
    (),
    SmartCommitterErrorView,
> {
    match write {
        FileWrite::CreateFailed { cause } => Err(
            path_error(FILE_OPEN_FAILED@, filename, cause@),
        ),
        FileWrite::WriteFailed { cause } => Err(
            path_error(FILE_WRITE_FAILED@, filename, cause@),
        ),
        FileWrite::Written => Ok(()),
    }
}

/// An outcome without a value, as plain text.
pub open spec fn unit_outcome(r: Result<(), SmartCommitterError>) -> Result<
    (),
    SmartCommitterErrorView,
> {
    match r {
        Ok(_) => Ok(()),
        Err(e) => Err(e@),
    }
}

/// The result of writing a message to the file `filename`: an input/output
/// error where the file could not be created or not be written.
pub fn save_message_to_file(filename: &str, write: FileWrite) -> (r: Result<
    (),
    SmartCommitterError,
>)
    ensures
        unit_outcome(r) == saved_message(filename@, write),
{
    match write {
        FileWrite::CreateFailed { cause } => Err(
            make_path_error(FILE_OPEN_FAILED, filename, cause),
        ),
        FileWrite::WriteFailed { cause } => Err(
            make_path_error(FILE_WRITE_FAILED, filename, cause),
        ),
        FileWrite::Written => Ok(()),
    }
}

/// What became of the attempt to read the commit-message file.
#[derive(Debug, Clone, PartialEq, Eq)]
pub enum FileRead {
    /// The file could not be opened.
    OpenFailed { cause: String },
    /// The file was opened; `content` is what could be read of it.
    Content { content: String },
}

/// What the commit-message file held, or the error for a file that could
/// not be opened.
pub open spec fn existing_content(path: Seq<char>, read: FileRead) -> Result<
    Seq<char>,
    SmartCommitterErrorView,
> {
    match read {
        FileRead::OpenFailed { cause } => Err(path_error(FILE_OPEN_FAILED@, path, cause@)),
        FileRead::Content { content } => Ok(content@),
    }
}

/// What the commit-message file held, or the error for a file that could
/// not be opened.
pub fn read_commit_file(path: &str, read: FileRead) -> (r: Result<String, SmartCommitterError>)
    ensures
        text_outcome(r) == existing_content(path@, read),
{
    match read {
        FileRead::OpenFailed { cause } => Err(make_path_error(FILE_OPEN_FAILED, path, cause)),
        FileRead::Content { content } => Ok(content),
    }
}

/// The new content of the commit-message file: the drafted message, a line
/// break, and then what the file held before, so that nothing of it is lost.
pub open spec fn seeded_content(msg: Seq<char>, existing: Seq<char>) -> Seq<char> {
    msg + seq!['\n'] + existing
}

/// The new content of the commit-message file.
pub fn seed_content(msg: &str, existing: &str) -> (content: String)
    ensures
        content@ == seeded_content(msg@, existing@),
{
    proof {
        reveal_strlit("\n");
    }
    let mut content: String = msg.to_owned();
    content.append("\n");
    content.append(existing);
    assert(content@ =~= seeded_content(msg@, existing@));
    content
}

/// The program of an editor's command line: what stands before the first
/// white-space character.
pub open spec fn editor_program(command: Seq<char>) -> Seq<char> {
    split_at_white_space(command).first()
}

/// The arguments that the editor is run with: the further pieces of its
/// command line, cut at each white-space character, and then the file. No
/// quoting is known: an argument cannot hold white space, and two
/// white-space characters in a row enclose an empty argument.
pub open spec fn editor_arguments(command: Seq<char>, file: Seq<char>) -> Seq<Seq<char>> {
    split_at_white_space(command).drop_first().push(file)
}

/// What editor mode does with a drafted message.
#[derive(Debug, Clone, PartialEq, Eq)]
pub struct EditorDelivery {
    /// The commit-message file.
    pub file: String,
    /// What to write to it before the editor is started.
    pub content: String,
    /// The program to run.
    pub program: String,
    /// Its arguments.
    pub arguments: Vec<String>,
}

pub struct EditorDeliveryView {
    pub file: Seq<char>,
    pub content: Seq<char>,
    pub program: Seq<char>,
    pub arguments: Seq<Seq<char>>,
}

impl View for EditorDelivery {
    type V = EditorDeliveryView;

    open spec fn view(&self) -> EditorDeliveryView {
        EditorDeliveryView {
            file: self.file@,
            content: self.content@,
            program: self.program@,
            arguments: texts(self.arguments@),
        }
    }
}

/// What editor mode does for the given file, message, former content of
/// the file and editor.
pub open spec fn editor_delivery(
    file: Seq<char>,
    msg: Seq<char>,
    existing: Seq<char>,
    editor: EditorConfigView,
) -> EditorDeliveryView {
    EditorDeliveryView {
        file,
        content: seeded_content(msg, existing),
        program: editor_program(editor.command),
        arguments: editor_arguments(editor.command, file),
    }
}

/// The program and the arguments to run the configured editor on `file`.
pub fn editor_command(command: &str, file: &str) -> (run: (String, Vec<String>))
    ensures
        run.0@ == editor_program(command@),
        texts(run.1@) == editor_arguments(command@, file@),
{
    let mut pieces: Vec<String> = split_white_space(command);
    proof {
        lemma_split_pieces(command@);
    }
    let ghost all = pieces@;
    let program: String = pieces.remove(0);
    pieces.push(file.to_owned());
    assert(texts(pieces@) =~= editor_arguments(command@, file@)) by {
        assert(texts(all) == split_at_white_space(command@));
        assert forall|i: int| 0 <= i < all.len() - 1 implies texts(pieces@)[i]
            == split_at_white_space(command@).drop_first()[i] by {
            assert(pieces@[i] == all[i + 1]);
            assert(texts(all)[i + 1] == all[i + 1]@);
        }
    }
    assert(program@ == texts(all)[0]);
    (program, pieces)
}

/// Editor mode: the drafted message is put before what the commit-message
/// file held, the file is written anew, and the editor is run on it.
pub fn editor_mode(
    commit_file_path: &str,
    msg: &str,
    existing: &str,
    editor_config: &EditorConfig,
) -> (delivery: EditorDelivery)
    ensures
        delivery@ == editor_delivery(commit_file_path@, msg@, existing@, editor_config@),
{
    let (program, arguments) = editor_command(editor_config.command.as_str(), commit_file_path);
    EditorDelivery {
        file: commit_file_path.to_owned(),
        content: seed_content(msg, existing),
        program,
        arguments,
    }
}

/// Which child process was run.
#[derive(Debug, Clone, Copy, PartialEq, Eq, Structural)]
pub enum Child {
    /// The commit command.
    Commit,
    /// The editor.
    Editor,
}

/// The message of the error for a child process that could not be started.
pub open spec fn not_launched_message(child: Child) -> Seq<char> {
    match child {
        Child::Commit => COMMIT_NOT_LAUNCHED@,
        Child::Editor => EDITOR_NOT_LAUNCHED@,
    }
}

/// The message of the error for a child process whose end could not be
/// learned.
pub open spec fn lost_message(child: Child) -> Seq<char> {
    match child {
        Child::Commit => COMMIT_LOST@,
        Child::Editor => EDITOR_LOST@,
    }
}

/// The error for a child process that could not be started: an
/// input/output error, for the commit command as for the editor.
pub open spec fn not_launched(child: Child, cause: Seq<char>) -> SmartCommitterErrorView {
    SmartCommitterErrorView {
        source: Some(cause),
        kind: SmartCommitterErrorKind::IOError,
        message: not_launched_message(child),
    }
}

/// The error for a child process whose end could not be learned: an
/// input/output error, for the commit command as for the editor.
pub open spec fn lost(child: Child, cause: Seq<char>) -> SmartCommitterErrorView {
    SmartCommitterErrorView {
        source: Some(cause),
        kind: SmartCommitterErrorKind::IOError,
        message: lost_message(child),
    }
}

/// The exit code of a child process that ran to its end, or the error for
/// one that did not.
pub open spec fn child_outcome(child: Child, run: ChildRun) -> Result<
    i32,
    SmartCommitterErrorView,
> {
    match run {
        ChildRun::NotLaunched { cause } => Err(not_launched(child, cause@)),
        ChildRun::Lost { cause } => Err(lost(child, cause@)),
        ChildRun::Exited { status } => Ok(exit_code(status)),
    }
}

/// An exit code or an error, as plain values.
pub open spec fn code_outcome(r: Result<i32, SmartCommitterError>) -> Result<
    i32,
    SmartCommitterErrorView,
> {
    match r {
        Ok(code) => Ok(code),
        Err(e) => Err(e@),
    }
}

/// The exit code of a child process that ran to its end: its own, or 255
/// where it ended without one. For one that could not be started, or whose
/// end could not be learned, an input/output error, whose message names the
/// child.
pub fn child_exit(child: Child, run: ChildRun) -> (r: Result<i32, SmartCommitterError>)
    ensures
        code_outcome(r) == child_outcome(child, run),
{
    match run {
        ChildRun::NotLaunched { cause } => {
            let message: &'static str = match child {
                Child::Commit => COMMIT_NOT_LAUNCHED,
                Child::Editor => EDITOR_NOT_LAUNCHED,
            };
            Err(
                SmartCommitterError::new(
                    SmartCommitterErrorKind::IOError,
                    message.to_owned(),
                    Some(cause),
                ),
            )
        },
        ChildRun::Lost { cause } => {
            let message: &'static str = match child {
                Child::Commit => COMMIT_LOST,
                Child::Editor => EDITOR_LOST,
            };
            Err(
                SmartCommitterError::new(
                    SmartCommitterErrorKind::IOError,
                    message.to_owned(),
                    Some(cause),
                ),
            )
        },
        ChildRun::Exited { status } => Ok(exit_code_of(status)),
    }
}

/// A process that cannot be started is an input/output error, whichever
/// process it is: the diff command, the commit command or the editor. The
/// version-control kind is kept for a version-control command that ran and
/// failed, or printed what cannot be read.
pub proof fn law_unstarted_process_is_io_error(child: Child, cause: String)
    ensures
        diff_of(DiffRun::NotRun { cause }) is Err,
        diff_of(DiffRun::NotRun { cause })->Err_0.kind == SmartCommitterErrorKind::IOError,
        diff_of(DiffRun::NotRun { cause })->Err_0.source == Some(cause@),
        child_outcome(child, ChildRun::NotLaunched { cause }) is Err,
        child_outcome(child, ChildRun::NotLaunched { cause })->Err_0.kind
            == SmartCommitterErrorKind::IOError,
        child_outcome(child, ChildRun::NotLaunched { cause })->Err_0.source == Some(cause@),
        forall|status: Option<i32>, output: Vec<u8>|
            (#[trigger] diff_of(DiffRun::Finished { status, output })) matches Err(e) ==> e.kind
                == SmartCommitterErrorKind::VCSError,
{
}

} // verus!

//! The run as a whole: from the staged changes to the commit or the editor.
//!
//! The pipeline decides; the caller acts. In every stage the pipeline names
//! one instruction: a text for the diagnostic stream and one piece of work
//! to do outside. The caller does the work and reports what came of it as an
//! event, and the pipeline moves on. An event that does not answer the
//! instruction of the stage changes nothing.

use crate::config::{UserConfig, UserConfigView};
use crate::delivery::{
    child_exit, child_outcome, editor_arguments, editor_command, editor_program,
    existing_content, read_commit_file, save_message_to_file, saved_message, seed_content,
    seeded_content, Child, FileRead, SCRATCH_FILE,
};
use crate::draft::{draft_request, request_for, ChatRequest, ChatRequestView};
use crate::error::{display_text, SmartCommitterError, SmartCommitterErrorView};
use crate::git::{diff_of, exit_code, get_diff, DiffRun};
use crate::outcome::{ChildRun, FileWrite};
use crate::stream::{
    added, contents, model_failure, stream_failure, ResponseFragment, ResponseFragmentView,
    StreamAccumulator, StreamAccumulatorView,
};
use crate::text::{blank, is_blank, optional_text, texts};
use vstd::prelude::*;
use vstd::string::*;

verus! {

/// The exit code of a run that reached its end.
pub const EXIT_DONE: i32 = 0;

/// The exit code of a run that an error ended.
pub const EXIT_ERROR: i32 = 1;

/// The exit code of a run that found nothing staged.
pub const EXIT_EMPTY_DIFF: i32 = 3;

/// What the user is told where nothing is staged.
pub const EMPTY_DIFF_NOTICE: &'static str =
    "No change is staged! You may need to run `git add` to add files.\n";

/// Why a run failed.
#[derive(Debug, Clone, PartialEq, Eq)]
pub enum Failure {
    /// Nothing is staged. This is no error: the user is told what to do.
    EmptyDiff,
    /// An error ended the run.
    Error { error: SmartCommitterError },
    /// The commit command or the editor ended with this exit code, which is
    /// not 0.
    ChildExit { code: i32 },
}

pub enum FailureModel {
    EmptyDiff,
    Error { error: SmartCommitterErrorView },
    ChildExit { code: i32 },
}

impl View for Failure {
    type V = FailureModel;

    open spec fn view(&self) -> FailureModel {
        match self {
            Failure::EmptyDiff => FailureModel::EmptyDiff,
            Failure::Error { error } => FailureModel::Error { error: error@ },
            Failure::ChildExit { code } => FailureModel::ChildExit { code: *code },
        }
    }
}

impl FailureModel {
    /// The exit code of the process for this failure: 3 where nothing is
    /// staged, 1 for an error, and for a child process its own exit code.
    pub open spec fn exit_code(self) -> i32 {
        match self {
            FailureModel::EmptyDiff => EXIT_EMPTY_DIFF,
            FailureModel::Error { .. } => EXIT_ERROR,
            FailureModel::ChildExit { code } => code,
        }
    }

    /// What the user is told of this failure. Of a child process nothing:
    /// it has spoken for itself.
    pub open spec fn notice(self) -> Seq<char> {
        match self {
            FailureModel::EmptyDiff => EMPTY_DIFF_NOTICE@,
            FailureModel::Error { error } => display_text(error) + seq!['\n'],
            FailureModel::ChildExit { .. } => Seq::<char>::empty(),
        }
    }
}

/// How a run reached its end.
#[derive(Debug, Clone, Copy, PartialEq, Eq, Structural)]
pub enum Completion {
    /// The commit command made the commit.
    Committed,
    /// The editor was left with exit code 0.
    EditorExited,
}

/// The end that a child process brings about where it ends with exit code 0.
pub open spec fn completion_of(child: Child) -> Completion {
    match child {
        Child::Commit => Completion::Committed,
        Child::Editor => Completion::EditorExited,
    }
}

/// How far a run has come.
#[derive(Debug, PartialEq, Eq)]
pub enum Stage {
    /// Nothing is known yet; the staged changes are asked for.
    Idle,
    /// The staged changes are there and worth a draft; the request to the
    /// model is being opened.
    DiffAcquired { diff: String },
    /// The answer is arriving.
    Drafting { accumulator: StreamAccumulator },
    /// The message is complete; the first step of the delivery is under
    /// way: writing the scratch file in plain mode, reading the
    /// commit-message file in editor mode.
    Drafted { message: String },
    /// The second step of the delivery is under way: the commit command in
    /// plain mode, writing `content` to the commit-message file in editor
    /// mode.
    Delivering { content: String },
    /// The editor is running on the commit-message file.
    EditorLaunched,
    /// The commit was made, or the editor was left with exit code 0.
    Done { how: Completion },
    /// The run has failed.
    Failed { failure: Failure },
}

pub enum StageView {
    Idle,
    DiffAcquired { diff: Seq<char> },
    Drafting { accumulator: StreamAccumulatorView },
    Drafted { message: Seq<char> },
    Delivering { content: Seq<char> },
    EditorLaunched,
    Done { how: Completion },
    Failed { failure: FailureModel },
}

impl View for Stage {
    type V = StageView;

    open spec fn view(&self) -> StageView {
        match self {
            Stage::Idle => StageView::Idle,
            Stage::DiffAcquired { diff } => StageView::DiffAcquired { diff: diff@ },
            Stage::Drafting { accumulator } => StageView::Drafting { accumulator: accumulator@ },
            Stage::Drafted { message } => StageView::Drafted { message: message@ },
            Stage::Delivering { content } => StageView::Delivering { content: content@ },
            Stage::EditorLaunched => StageView::EditorLaunched,
            Stage::Done { how } => StageView::Done { how: *how },
            Stage::Failed { failure } => StageView::Failed { failure: failure@ },
        }
    }
}

impl StageView {
    /// Whether the run is over.
    pub open spec fn finished(self) -> bool {
        self is Done || self is Failed
    }

    /// The place of the stage in the order in which a run passes through
    /// the stages.
    pub open spec fn rank(self) -> nat {
        match self {
            StageView::Idle => 0,
            StageView::DiffAcquired { .. } => 1,
            StageView::Drafting { .. } => 2,
            StageView::Drafted { .. } => 3,
            StageView::Delivering { .. } => 4,
            StageView::EditorLaunched => 5,
            StageView::Done { .. } => 6,
            StageView::Failed { .. } => 6,
        }
    }
}

/// One piece of work outside.
#[derive(Debug, Clone, PartialEq, Eq)]
pub enum Action {
    /// Run the command that prints the staged changes.
    AcquireDiff,
    /// Open the streaming request to the model.
    OpenStream { request: ChatRequest },
    /// Wait for the next item of the stream.
    AwaitFragment,
    /// Read the file.
    ReadFile { path: String },
    /// Write the content to the file, in place of what it holds.
    WriteFile { path: String, content: String },
    /// Run the commit command with the file as the source of the message.
    Commit { message_file: String },
    /// Run the editor and wait until it ends.
    LaunchEditor { program: String, arguments: Vec<String> },
    /// End the process with the exit code.
    Exit { code: i32 },
}

pub enum ActionView {
    AcquireDiff,
    OpenStream { request: ChatRequestView },
    AwaitFragment,
    ReadFile { path: Seq<char> },
    WriteFile { path: Seq<char>, content: Seq<char> },
    Commit { message_file: Seq<char> },
    LaunchEditor { program: Seq<char>, arguments: Seq<Seq<char>> },
    Exit { code: i32 },
}

impl View for Action {
    type V = ActionView;

    open spec fn view(&self) -> ActionView {
        match self {
            Action::AcquireDiff => ActionView::AcquireDiff,
            Action::OpenStream { request } => ActionView::OpenStream { request: request@ },
            Action::AwaitFragment => ActionView::AwaitFragment,
            Action::ReadFile { path } => ActionView::ReadFile { path: path@ },
            Action::WriteFile { path, content } => ActionView::WriteFile {
                path: path@,
                content: content@,
            },
            Action::Commit { message_file } => ActionView::Commit { message_file: message_file@ },
            Action::LaunchEditor { program, arguments } => ActionView::LaunchEditor {
                program: program@,
                arguments: texts(arguments@),
            },
            Action::Exit { code } => ActionView::Exit { code: *code },
        }
    }
}

/// What the caller is to do next: show the notice on the diagnostic stream,
/// where it is not empty, and then do the work.
#[derive(Debug, Clone, PartialEq, Eq)]
pub struct Instruction {
    pub notice: String,
    pub action: Action,
}

pub struct InstructionView {
    pub notice: Seq<char>,
    pub action: ActionView,
}

impl View for Instruction {
    type V = InstructionView;

    open spec fn view(&self) -> InstructionView {
        InstructionView { notice: self.notice@, action: self.action@ }
    }
}

/// What the caller reports of the work that it did.
#[derive(Debug, Clone, PartialEq, Eq)]
pub enum Event {
    /// The command that prints the staged changes was run.
    DiffRan { run: DiffRun },
    /// The stream to the model is open.
    StreamOpened,
    /// The stream to the model could not be opened.
    StreamRefused { cause: String },
    /// The stream handed over a fragment.
    StreamFragment { fragment: ResponseFragment },
    /// The stream broke off with an error.
    StreamFailed { cause: String },
    /// The stream is exhausted.
    StreamEnded,
    /// The file was read.
    FileWasRead { read: FileRead },
    /// The file was written.
    FileWasWritten { write: FileWrite },
    /// The child process was run.
    ChildRan { child: ChildRun },
}

/// What a pipeline holds.
pub struct PipelineView {
    /// The user's configuration.
    pub config: UserConfigView,
    /// The commit-message file in editor mode; nothing in plain mode.
    pub target: Option<Seq<char>>,
    /// How far the run has come.
    pub stage: StageView,
}

/// The stage after a child process was run.
pub open spec fn after_child(child: Child, run: ChildRun) -> StageView {
    match child_outcome(child, run) {
        Err(error) => StageView::Failed { failure: FailureModel::Error { error } },
        Ok(code) => if code == 0 {
            StageView::Done { how: completion_of(child) }
        } else {
            StageView::Failed { failure: FailureModel::ChildExit { code } }
        },
    }
}

/// The stage after the command that prints the staged changes was run.
pub open spec fn after_diff(run: DiffRun) -> StageView {
    match diff_of(run) {
        Err(error) => StageView::Failed { failure: FailureModel::Error { error } },
        Ok(diff) => if blank(diff) {
            StageView::Failed { failure: FailureModel::EmptyDiff }
        } else {
            StageView::DiffAcquired { diff }
        },
    }
}

/// The stage that failed with the given error.
pub open spec fn failed_with(error: SmartCommitterErrorView) -> StageView {
    StageView::Failed { failure: FailureModel::Error { error } }
}

impl PipelineView {
    /// A run that has not begun.
    pub open spec fn initial(config: UserConfigView, target: Option<Seq<char>>) -> PipelineView {
        PipelineView { config, target, stage: StageView::Idle }
    }

    /// The editor runs in editor mode only, and the model is asked about
    /// staged changes only where there are some.
    pub open spec fn well_formed(self) -> bool {
        &&& self.stage is EditorLaunched ==> self.target is Some
        &&& self.stage matches StageView::DiffAcquired { diff } ==> !blank(diff)
    }

    /// The file that the message is written to: the scratch file in plain
    /// mode, the commit-message file in editor mode.
    pub open spec fn message_file(self) -> Seq<char> {
        match self.target {
            Some(path) => path,
            None => SCRATCH_FILE@,
        }
    }

    /// The stage after the event.
    pub open spec fn next_stage(self, event: Event) -> StageView {
        match self.stage {
            StageView::Idle => match event {
                Event::DiffRan { run } => after_diff(run),
                _ => self.stage,
            },
            StageView::DiffAcquired { diff } => match event {
                Event::StreamOpened => StageView::Drafting {
                    accumulator: StreamAccumulatorView::initial(),
                },
                Event::StreamRefused { cause } => failed_with(model_failure(cause@)),
                _ => self.stage,
            },
            StageView::Drafting { accumulator } => match event {
                Event::StreamFragment { fragment } => StageView::Drafting {
                    accumulator: accumulator.apply(fragment@),
                },
                Event::StreamFailed { cause } => failed_with(model_failure(cause@)),
                Event::StreamEnded => StageView::Drafted { message: accumulator.content },
                _ => self.stage,
            },
            StageView::Drafted { message } => match self.target {
                None => match event {
                    Event::FileWasWritten { write } => match saved_message(SCRATCH_FILE@, write) {
                        Ok(_) => StageView::Delivering { content: message },
                        Err(error) => failed_with(error),
                    },
                    _ => self.stage,
                },
                Some(path) => match event {
                    Event::FileWasRead { read } => match existing_content(path, read) {
                        Ok(existing) => StageView::Delivering {
                            content: seeded_content(message, existing),
                        },
                        Err(error) => failed_with(error),
                    },
                    _ => self.stage,
                },
            },
            StageView::Delivering { content } => match self.target {
                None => match event {
                    Event::ChildRan { child } => after_child(Child::Commit, child),
                    _ => self.stage,
                },
                Some(path) => match event {
                    Event::FileWasWritten { write } => match saved_message(path, write) {
                        Ok(_) => StageView::EditorLaunched,
                        Err(error) => failed_with(error),
                    },
                    _ => self.stage,
                },
            },
            StageView::EditorLaunched => match event {
                Event::ChildRan { child } => after_child(Child::Editor, child),
                _ => self.stage,
            },
            StageView::Done { .. } => self.stage,
            StageView::Failed { .. } => self.stage,
        }
    }

    /// The pipeline after the event.
    pub open spec fn next(self, event: Event) -> PipelineView {
        PipelineView { config: self.config, target: self.target, stage: self.next_stage(event) }
    }

    /// The pipeline after the events, taken in their order.
    pub open spec fn run(self, events: Seq<Event>) -> PipelineView
        decreases events.len(),
    {
        if events.len() == 0 {
            self
        } else {
            self.run(events.drop_last()).next(events.last())
        }
    }

    /// The work to do in the present stage.
    pub open spec fn action(self) -> ActionView {
        match self.stage {
            StageView::Idle => ActionView::AcquireDiff,
            StageView::DiffAcquired { diff } => ActionView::OpenStream {
                request: request_for(diff, self.config.llm),
            },
            StageView::Drafting { .. } => ActionView::AwaitFragment,
            StageView::Drafted { message } => match self.target {
                None => ActionView::WriteFile { path: SCRATCH_FILE@, content: message },
                Some(path) => ActionView::ReadFile { path },
            },
            StageView::Delivering { content } => match self.target {
                None => ActionView::Commit { message_file: SCRATCH_FILE@ },
                Some(path) => ActionView::WriteFile { path, content },
            },
            StageView::EditorLaunched => ActionView::LaunchEditor {
                program: editor_program(self.config.editor.command),
                arguments: editor_arguments(self.config.editor.command, self.message_file()),
            },
            StageView::Done { .. } => ActionView::Exit { code: EXIT_DONE },
            StageView::Failed { failure } => ActionView::Exit { code: failure.exit_code() },
        }
    }

    /// The text for the diagnostic stream in the present stage: the
    /// progress while the answer arrives, a line break once it is complete,
    /// and the word on a failure.
    pub open spec fn notice(self) -> Seq<char> {
        match self.stage {
            StageView::Drafting { accumulator } => accumulator.progress(),
            StageView::Drafted { .. } => seq!['\n'],
            StageView::Failed { failure } => failure.notice(),
            _ => Seq::<char>::empty(),
        }
    }

    /// What the caller is to do in the present stage.
    pub open spec fn instruction(self) -> InstructionView {
        InstructionView { notice: self.notice(), action: self.action() }
    }
}

/// Whether the work touches the repository or the commit-message file, or
/// runs a child process on them: the delivery of a message.
pub open spec fn delivers(action: ActionView) -> bool {
    action is WriteFile || action is Commit || action is LaunchEditor
}

/// A step keeps a pipeline well formed.
pub proof fn law_step_keeps_well_formed(p: PipelineView, event: Event)
    requires
        p.well_formed(),
    ensures
        p.next(event).well_formed(),
{
}

/// A run that is over stays as it is, whatever is reported to it.
pub proof fn law_finished_stays(p: PipelineView, events: Seq<Event>)
    requires
        p.stage.finished(),
    ensures
        p.run(events) == p,
    decreases events.len(),
{
    if events.len() > 0 {
        law_finished_stays(p, events.drop_last());
    }
}

/// A run passes through the stages in their order and never goes back. The
/// request to the model is the work of one stage only, which is entered from
/// the first stage only: so a run makes one request at most, and none a
/// second time after a failure.
pub proof fn law_stages_in_order(p: PipelineView, events: Seq<Event>)
    ensures
        p.run(events).stage.rank() >= p.stage.rank(),
        p.action() is OpenStream <==> p.stage is DiffAcquired,
        forall|event: Event|
            (#[trigger] p.next(event)).stage is DiffAcquired ==> p.stage is Idle || p.stage
                == p.next(event).stage,
    decreases events.len(),
{
    if events.len() > 0 {
        law_stages_in_order(p, events.drop_last());
        let before = p.run(events.drop_last());
        assert(before.next(events.last()).stage.rank() >= before.stage.rank());
    }
}

/// Nothing is delivered before the message is drafted: a file is written,
/// the commit command or the editor is run only in the stages that follow
/// the end of the stream.
pub proof fn law_delivery_follows_draft(p: PipelineView)
    ensures
        delivers(p.action()) ==> p.stage is Drafted || p.stage is Delivering
            || p.stage is EditorLaunched,
        delivers(p.action()) ==> p.stage.rank() >= 3,
{
}

/// Fail fast on nothing staged: where the diff command prints nothing, or
/// white space only, the run fails at once as a run without staged changes.
/// It tells the user so and ends with exit code 3; no request is made to the
/// model and nothing is delivered, then or later.
pub proof fn law_empty_diff_fails_fast(p: PipelineView, run: DiffRun, later: Seq<Event>)
    requires
        p.stage is Idle,
        diff_of(run) matches Ok(diff) && blank(diff),
    ensures
        p.next(Event::DiffRan { run }).stage == (StageView::Failed {
            failure: FailureModel::EmptyDiff,
        }),
        p.next(Event::DiffRan { run }).run(later).instruction() == (InstructionView {
            notice: EMPTY_DIFF_NOTICE@,
            action: ActionView::Exit { code: EXIT_EMPTY_DIFF },
        }),
{
    law_finished_stays(p.next(Event::DiffRan { run }), later);
}

/// A broken stream ends the run: where the stream breaks off while the
/// answer arrives, the run fails with the model error for the cause, the
/// process ends with exit code 1, and whatever is reported later changes
/// nothing. So nothing of a partial answer is ever delivered.
pub proof fn law_model_error_ends_run(p: PipelineView, cause: String, later: Seq<Event>)
    requires
        p.stage is Drafting,
    ensures
        p.next(Event::StreamFailed { cause }).stage == failed_with(model_failure(cause@)),
        p.next(Event::StreamFailed { cause }).run(later) == p.next(Event::StreamFailed { cause }),
        p.next(Event::StreamFailed { cause }).run(later).action() == (ActionView::Exit {
            code: EXIT_ERROR,
        }),
        !delivers(p.next(Event::StreamFailed { cause }).run(later).action()),
{
    law_finished_stays(p.next(Event::StreamFailed { cause }), later);
}

/// The events that report the given fragments, one by one.
pub open spec fn fragment_events(fragments: Seq<ResponseFragment>) -> Seq<Event> {
    Seq::new(fragments.len(), |i: int| Event::StreamFragment { fragment: fragments[i] })
}

/// The fragments as plain text.
pub open spec fn fragment_views(fragments: Seq<ResponseFragment>) -> Seq<ResponseFragmentView> {
    Seq::new(fragments.len(), |i: int| fragments[i]@)
}

/// While the answer is drafted, the fragments that arrive are applied to
/// the accumulator in their order.
pub proof fn lemma_fragments_accumulate(p: PipelineView, fragments: Seq<ResponseFragment>)
    requires
        p.stage is Drafting,
    ensures
        p.run(fragment_events(fragments)).stage is Drafting,
        p.run(fragment_events(fragments)).stage->Drafting_accumulator.content
            == p.stage->Drafting_accumulator.content + contents(
            fragment_views(fragments),
        ),
    decreases fragments.len(),
{
    if fragments.len() == 0 {
        assert(p.stage->Drafting_accumulator.content + Seq::<char>::empty()
            =~= p.stage->Drafting_accumulator.content);
    } else {
        let front = fragments.drop_last();
        lemma_fragments_accumulate(p, front);
        assert(fragment_events(fragments).drop_last() =~= fragment_events(front));
        assert(fragment_views(fragments).drop_last() =~= fragment_views(front));
        assert(fragment_views(fragments).last() == fragments.last()@);
        let before = p.run(fragment_events(front));
        assert(p.run(fragment_events(fragments)) == before.next(fragment_events(fragments).last()));
        assert(before.stage->Drafting_accumulator.content + added(
            fragments.last()@.content,
        ) =~= p.stage->Drafting_accumulator.content + contents(
            fragment_views(fragments),
        ));
    }
}

/// The message is what the stream held: the fragments that arrive while the
/// answer is drafted add up, in their order, to the message that the end of
/// the stream hands to the delivery.
pub proof fn law_drafted_message(
    p: PipelineView,
    fragments: Seq<ResponseFragment>,
)
    requires
        p.stage is Drafting,
    ensures
        p.run(fragment_events(fragments)).next(Event::StreamEnded).stage == (StageView::Drafted {
            message: p.stage->Drafting_accumulator.content + contents(
                fragment_views(fragments),
            ),
        }),
{
    lemma_fragments_accumulate(p, fragments);
}

/// Plain mode hands the message on as it is: what is written to the
/// scratch file is the drafted message, character for character, and the
/// commit command is run with that file only once it was written.
pub proof fn law_plain_mode_verbatim(p: PipelineView, message: Seq<char>)
    requires
        p.target is None,
        p.stage == (StageView::Drafted { message }),
    ensures
        p.action() == (ActionView::WriteFile { path: SCRATCH_FILE@, content: message }),
        p.next(Event::FileWasWritten { write: FileWrite::Written }).action() == (
        ActionView::Commit { message_file: SCRATCH_FILE@ }),
        forall|event: Event|
            (#[trigger] p.next(event)).action() is Commit ==> event == (Event::FileWasWritten {
                write: FileWrite::Written,
            }),
{
}

/// Editor mode puts the message first: once the commit-message file was
/// read, the content to write to it is the drafted message, a line break and
/// what the file held; and the editor is started on that file only once
/// this content was written.
pub proof fn law_editor_content_order(
    p: PipelineView,
    file: Seq<char>,
    message: Seq<char>,
    existing: String,
)
    requires
        p.target == Some(file),
        p.stage == (StageView::Drafted { message }),
    ensures
        p.action() == (ActionView::ReadFile { path: file }),
        p.next(Event::FileWasRead { read: FileRead::Content { content: existing } }).action() == (
        ActionView::WriteFile {
            path: file,
            content: message + seq!['\n'] + existing@,
        }),
        p.next(Event::FileWasRead { read: FileRead::Content { content: existing } }).next(
            Event::FileWasWritten { write: FileWrite::Written },
        ).action() == (ActionView::LaunchEditor {
            program: editor_program(p.config.editor.command),
            arguments: editor_arguments(p.config.editor.command, file),
        }),
        forall|event: Event|
            (#[trigger] p.next(event)).action() is LaunchEditor ==> false,
{
}

/// The exit code of a child process is handed on: where the commit command
/// or the editor ends with an exit code that is not 0, the process ends
/// with that same code, and nothing is reported of it as an error; where it
/// ends with 0, the run is done and the process ends with 0.
pub proof fn law_exit_code_propagates(p: PipelineView, status: Option<i32>, later: Seq<Event>)
    requires
        (p.stage is Delivering && p.target is None) || p.stage is EditorLaunched,
    ensures
        p.next(Event::ChildRan { child: ChildRun::Exited { status } }).run(later).instruction()
            == (InstructionView {
            notice: Seq::<char>::empty(),
            action: ActionView::Exit { code: exit_code(status) },
        }),
        status matches Some(code) ==> p.next(
            Event::ChildRan { child: ChildRun::Exited { status } },
        ).action() == (ActionView::Exit { code }),
{
    law_finished_stays(p.next(Event::ChildRan { child: ChildRun::Exited { status } }), later);
}

/// One run, from the staged changes to the commit or the editor.
#[derive(Debug, PartialEq, Eq)]
pub struct Pipeline {
    config: UserConfig,
    target: Option<String>,
    stage: Stage,
}

impl View for Pipeline {
    type V = PipelineView;

    closed spec fn view(&self) -> PipelineView {
        PipelineView {
            config: self.config@,
            target: optional_text(self.target),
            stage: self.stage@,
        }
    }
}

/// The stage after a child process was run.
fn stage_after_child(child: Child, run: ChildRun) -> (stage: Stage)
    ensures
        stage@ == after_child(child, run),
{
    match child_exit(child, run) {
        Err(error) => Stage::Failed { failure: Failure::Error { error } },
        Ok(code) => if code == 0 {
            Stage::Done {
                how: match child {
                    Child::Commit => Completion::Committed,
                    Child::Editor => Completion::EditorExited,
                },
            }
        } else {
            Stage::Failed { failure: Failure::ChildExit { code } }
        },
    }
}

/// The stage after the command that prints the staged changes was run.
fn stage_after_diff(run: DiffRun) -> (stage: Stage)
    ensures
        stage@ == after_diff(run),
{
    match get_diff(run) {
        Err(error) => Stage::Failed { failure: Failure::Error { error } },
        Ok(diff) => if is_blank(diff.as_str()) {
            Stage::Failed { failure: Failure::EmptyDiff }
        } else {
            Stage::DiffAcquired { diff }
        },
    }
}

/// The stage that failed with the given error.
fn stage_failed_with(error: SmartCommitterError) -> (stage: Stage)
    ensures
        stage@ == failed_with(error@),
{
    Stage::Failed { failure: Failure::Error { error } }
}

impl Failure {
    /// The exit code of the process for this failure.
    pub fn exit_code(&self) -> (code: i32)
        ensures
            code == self@.exit_code(),
    {
        match self {
            Failure::EmptyDiff => EXIT_EMPTY_DIFF,
            Failure::Error { .. } => EXIT_ERROR,
            Failure::ChildExit { code } => *code,
        }
    }

    /// What the user is told of this failure.
    pub fn notice(&self) -> (notice: String)
        ensures
            notice@ == self@.notice(),
    {
        match self {
            Failure::EmptyDiff => EMPTY_DIFF_NOTICE.to_owned(),
            Failure::Error { error } => {
                proof {
                    reveal_strlit("\n");
                }
                let mut notice: String = error.to_text();
                notice.append("\n");
                assert(notice@ =~= display_text(error@) + seq!['\n']);
                notice
            },
            Failure::ChildExit { .. } => String::new(),
        }
    }
}

impl Pipeline {
    #[verifier::type_invariant]
    spec fn sound(self) -> bool {
        self@.well_formed()
    }

    /// A run that has not begun: in editor mode on the commit-message file
    /// `target`, in plain mode where there is none.
    pub fn new(config: UserConfig, target: Option<String>) -> (pipeline: Pipeline)
        ensures
            pipeline@ == PipelineView::initial(config@, optional_text(target)),
            pipeline@.well_formed(),
    {
        Pipeline { config, target, stage: Stage::Idle }
    }

    /// How far the run has come.
    pub fn stage(&self) -> (stage: &Stage)
        ensures
            stage@ == self@.stage,
            self@.well_formed(),
    {
        proof {
            use_type_invariant(self);
        }
        &self.stage
    }

    /// Whether the run is over: nothing is left to do but to end the
    /// process.
    pub fn is_finished(&self) -> (finished: bool)
        ensures
            finished == self@.stage.finished(),
    {
        match &self.stage {
            Stage::Done { .. } => true,
            Stage::Failed { .. } => true,
            _ => false,
        }
    }

    /// Takes in what the caller reports and moves on.
    pub fn step(self, event: Event) -> (next: Pipeline)
        ensures
            next@ == self@.next(event),
            next@.well_formed(),
    {
        proof {
            use_type_invariant(&self);
        }
        let ghost before = self@;
        let Pipeline { config, target, stage } = self;
        let stage: Stage = match stage {
            Stage::Idle => match event {
                Event::DiffRan { run } => stage_after_diff(run),
                _ => Stage::Idle,
            },
            Stage::DiffAcquired { diff } => match event {
                Event::StreamOpened => Stage::Drafting { accumulator: StreamAccumulator::new() },
                Event::StreamRefused { cause } => stage_failed_with(stream_failure(cause)),
                _ => Stage::DiffAcquired { diff },
            },
            Stage::Drafting { accumulator } => match event {
                Event::StreamFragment { fragment } => Stage::Drafting {
                    accumulator: accumulator.apply(fragment),
                },
                Event::StreamFailed { cause } => stage_failed_with(stream_failure(cause)),
                Event::StreamEnded => Stage::Drafted { message: accumulator.finish() },
                _ => Stage::Drafting { accumulator },
            },
            Stage::Drafted { message } => match &target {
                None => match event {
                    Event::FileWasWritten { write } => match save_message_to_file(
                        SCRATCH_FILE,
                        write,
                    ) {
                        Ok(_) => Stage::Delivering { content: message },
                        Err(error) => stage_failed_with(error),
                    },
                    _ => Stage::Drafted { message },
                },
                Some(path) => match event {
                    Event::FileWasRead { read } => match read_commit_file(path.as_str(), read) {
                        Ok(existing) => Stage::Delivering {
                            content: seed_content(message.as_str(), existing.as_str()),
                        },
                        Err(error) => stage_failed_with(error),
                    },
                    _ => Stage::Drafted { message },
                },
            },
            Stage::Delivering { content } => match &target {
                None => match event {
                    Event::ChildRan { child } => stage_after_child(Child::Commit, child),
                    _ => Stage::Delivering { content },
                },
                Some(path) => match event {
                    Event::FileWasWritten { write } => match save_message_to_file(
                        path.as_str(),
                        write,
                    ) {
                        Ok(_) => Stage::EditorLaunched,
                        Err(error) => stage_failed_with(error),
                    },
                    _ => Stage::Delivering { content },
                },
            },
            Stage::EditorLaunched => match event {
                Event::ChildRan { child } => stage_after_child(Child::Editor, child),
                _ => Stage::EditorLaunched,
            },
            Stage::Done { how } => Stage::Done { how },
            Stage::Failed { failure } => Stage::Failed { failure },
        };
        assert(stage@ == before.next_stage(event));
        Pipeline { config, target, stage }
    }

    /// What the caller is to do in the present stage.
    pub fn instruction(&self) -> (instruction: Instruction)
        ensures
            instruction@ == self@.instruction(),
    {
        proof {
            use_type_invariant(self);
        }
        match &self.stage {
            Stage::Idle => Instruction { notice: String::new(), action: Action::AcquireDiff },
            Stage::DiffAcquired { diff } => Instruction {
                notice: String::new(),
                action: Action::OpenStream {
                    request: draft_request(diff.as_str(), &self.config.llm),
                },
            },
            Stage::Drafting { accumulator } => Instruction {
                notice: accumulator.progress(),
                action: Action::AwaitFragment,
            },
            Stage::Drafted { message } => {
                proof {
                    reveal_strlit("\n");
                }
                let notice: String = "\n".to_owned();
                assert(notice@ =~= seq!['\n']);
                match &self.target {
                    None => Instruction {
                        notice,
                        action: Action::WriteFile {
                            path: SCRATCH_FILE.to_owned(),
                            content: message.clone(),
                        },
                    },
                    Some(path) => Instruction {
                        notice,
                        action: Action::ReadFile { path: path.clone() },
                    },
                }
            },
            Stage::Delivering { content } => match &self.target {
                None => Instruction {
                    notice: String::new(),
                    action: Action::Commit { message_file: SCRATCH_FILE.to_owned() },
                },
                Some(path) => Instruction {
                    notice: String::new(),
                    action: Action::WriteFile { path: path.clone(), content: content.clone() },
                },
            },
            Stage::EditorLaunched => {
                let file: &str = match &self.target {
                    Some(path) => path.as_str(),
                    None => SCRATCH_FILE,
                };
                let (program, arguments) = editor_command(self.config.editor.command.as_str(), file);
                Instruction {
                    notice: String::new(),
                    action: Action::LaunchEditor { program, arguments },
                }
            },
            Stage::Done { .. } => Instruction {
                notice: String::new(),
                action: Action::Exit { code: EXIT_DONE },
            },
            Stage::Failed { failure } => Instruction {
                notice: failure.notice(),
                action: Action::Exit { code: failure.exit_code() },
            },
        }
    }
}

} // verus!

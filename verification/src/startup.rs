//! What is said and done before a run begins: the configuration is made or
//! loaded, and the repository is looked for.

use crate::error::{display_text, SmartCommitterError};
use crate::pipeline::{
    Action, ActionView, Failure, Instruction, InstructionView, EXIT_DONE, EXIT_ERROR,
};
use vstd::prelude::*;
use vstd::string::*;

verus! {

/// The name under which the program speaks of itself where it was started
/// under none.
pub const PROGRAM_NAME: &'static str = "smart-committer";

/// What is said where no repository is found.
pub const NO_REPOSITORY_NOTICE: &'static str = "No git repo found.\n";

/// What is said before the path of a new configuration file.
pub const CONFIG_CREATED_HEAD: &'static str = "Config file is created at ";

/// What is said after the path of a new configuration file.
pub const CONFIG_CREATED_TAIL: &'static str =
    "\nEdit it to have correct configuration before using smart-committer!\n";

/// What is said, where there is no configuration file, before the name of
/// the program.
pub const CONFIG_MISSING_HEAD: &'static str =
    "Smart-committer user config is not created! Please use following command to create the user config.\n\n  ";

/// What is said, where there is no configuration file, after the name of the
/// program.
pub const CONFIG_MISSING_TAIL: &'static str = " --config\n\n";

/// What is said before the name of the model.
pub const GREETING_HEAD: &'static str = "\u{1F4F0} Smart-committer is using ";

/// What is said once the configuration file was made.
pub open spec fn config_created_notice(path: Seq<char>) -> Seq<char> {
    CONFIG_CREATED_HEAD@ + path + CONFIG_CREATED_TAIL@
}

/// What is said where there is no configuration file.
pub open spec fn config_missing_notice(program: Seq<char>) -> Seq<char> {
    CONFIG_MISSING_HEAD@ + program + CONFIG_MISSING_TAIL@
}

/// What is said before the run begins.
pub open spec fn greeting(model: Seq<char>) -> Seq<char> {
    GREETING_HEAD@ + model + seq!['\n']
}

/// After the configuration file was made at `path`: the user is told where
/// it is and to edit it, and the process ends with exit code 0.
pub fn config_created(path: &str) -> (instruction: Instruction)
    ensures
        instruction@ == (InstructionView {
            notice: config_created_notice(path@),
            action: ActionView::Exit { code: EXIT_DONE },
        }),
{
    let mut notice: String = CONFIG_CREATED_HEAD.to_owned();
    notice.append(path);
    notice.append(CONFIG_CREATED_TAIL);
    Instruction { notice, action: Action::Exit { code: EXIT_DONE } }
}

/// Where there is no configuration file: the user is told the command that
/// makes one, and the process ends with exit code 1. `program` is the name
/// under which the program was started.
pub fn config_missing(program: &str) -> (instruction: Instruction)
    ensures
        instruction@ == (InstructionView {
            notice: config_missing_notice(program@),
            action: ActionView::Exit { code: EXIT_ERROR },
        }),
{
    let mut notice: String = CONFIG_MISSING_HEAD.to_owned();
    notice.append(program);
    notice.append(CONFIG_MISSING_TAIL);
    Instruction { notice, action: Action::Exit { code: EXIT_ERROR } }
}

/// Where the current directory is in no repository: the user is told so,
/// and the process ends with exit code 1.
pub fn repository_missing() -> (instruction: Instruction)
    ensures
        instruction@ == (InstructionView {
            notice: NO_REPOSITORY_NOTICE@,
            action: ActionView::Exit { code: EXIT_ERROR },
        }),
{
    Instruction { notice: NO_REPOSITORY_NOTICE.to_owned(), action: Action::Exit { code: EXIT_ERROR } }
}

/// Where an error ended the start: its text is shown, and the process ends
/// with exit code 1.
pub fn startup_failed(error: SmartCommitterError) -> (instruction: Instruction)
    ensures
        instruction@ == (InstructionView {
            notice: display_text(error@) + seq!['\n'],
            action: ActionView::Exit { code: EXIT_ERROR },
        }),
{
    let failure = Failure::Error { error };
    Instruction { notice: failure.notice(), action: Action::Exit { code: failure.exit_code() } }
}

/// The line that names the model before the run begins.
pub fn greet(model: &str) -> (line: String)
    ensures
        line@ == greeting(model@),
{
    proof {
        reveal_strlit("\n");
    }
    let mut line: String = GREETING_HEAD.to_owned();
    line.append(model);
    line.append("\n");
    assert(line@ =~= greeting(model@));
    line
}

} // verus!

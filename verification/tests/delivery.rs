use smart_committer::config::EditorConfig;
use smart_committer::delivery::{
    child_exit, editor_command, editor_mode, plain_command_mode, read_commit_file,
    save_message_to_file, seed_content, Child, EditorDelivery, FileRead, PlainDelivery,
    SCRATCH_FILE,
};
use smart_committer::error::{SmartCommitterError, SmartCommitterErrorKind};
use smart_committer::outcome::{ChildRun, FileWrite};

fn io_error(message: &str, cause: &str) -> SmartCommitterError {
    SmartCommitterError {
        source: Some(cause.to_string()),
        kind: SmartCommitterErrorKind::IOError,
        message: message.to_string(),
    }
}

#[test]
fn the_scratch_file_lies_in_the_metadata_directory() {
    assert_eq!(SCRATCH_FILE, ".git/SMART_COMMITTER_MSG");
}

#[test]
fn plain_mode_writes_the_message_as_it_is() {
    assert_eq!(
        plain_command_mode("Add line to x"),
        PlainDelivery {
            message_file: ".git/SMART_COMMITTER_MSG".to_string(),
            content: "Add line to x".to_string(),
        }
    );
}

#[test]
fn plain_mode_keeps_line_breaks_and_the_empty_message() {
    assert_eq!(plain_command_mode("a\n\nb\n").content, "a\n\nb\n");
    assert_eq!(plain_command_mode("").content, "");
}

#[test]
fn a_written_file_is_no_error() {
    assert_eq!(save_message_to_file("x", FileWrite::Written), Ok(()));
}

#[test]
fn a_file_that_cannot_be_created() {
    assert_eq!(
        save_message_to_file(
            ".git/SMART_COMMITTER_MSG",
            FileWrite::CreateFailed { cause: "denied".to_string() }
        ),
        Err(io_error("Failed to open file: .git/SMART_COMMITTER_MSG", "denied"))
    );
}

#[test]
fn a_file_that_cannot_be_written() {
    assert_eq!(
        save_message_to_file("m.txt", FileWrite::WriteFailed { cause: "disk full".to_string() }),
        Err(io_error("Failed to write file: m.txt", "disk full"))
    );
}

#[test]
fn a_commit_file_that_cannot_be_opened() {
    assert_eq!(
        read_commit_file("COMMIT_EDITMSG", FileRead::OpenFailed { cause: "gone".to_string() }),
        Err(io_error("Failed to open file: COMMIT_EDITMSG", "gone"))
    );
}

#[test]
fn a_commit_file_that_was_read() {
    assert_eq!(
        read_commit_file("COMMIT_EDITMSG", FileRead::Content { content: "# text".to_string() }),
        Ok("# text".to_string())
    );
}

#[test]
fn the_message_stands_before_what_the_file_held() {
    assert_eq!(
        seed_content("Fix bug", "# Please enter commit message"),
        "Fix bug\n# Please enter commit message"
    );
}

#[test]
fn the_message_stands_before_an_empty_file_too() {
    assert_eq!(seed_content("Fix bug", ""), "Fix bug\n");
    assert_eq!(seed_content("", "# text"), "\n# text");
    assert_eq!(seed_content("", ""), "\n");
}

#[test]
fn nothing_of_the_file_is_lost() {
    let existing = "\n# Please enter the commit message for your changes.\n#\n# On branch main\n";
    let content = seed_content("Add x\n\n- one\n- two", existing);
    assert_eq!(content, format!("{}\n{}", "Add x\n\n- one\n- two", existing));
    assert!(content.ends_with(existing));
    assert!(content.starts_with("Add x\n\n- one\n- two\n"));
}

#[test]
fn the_editor_command_is_cut_at_spaces() {
    assert_eq!(
        editor_command("code --wait", "COMMIT_EDITMSG"),
        ("code".to_string(), vec!["--wait".to_string(), "COMMIT_EDITMSG".to_string()])
    );
}

#[test]
fn an_editor_without_arguments_gets_the_file_alone() {
    assert_eq!(
        editor_command("nano", ".git/COMMIT_EDITMSG"),
        ("nano".to_string(), vec![".git/COMMIT_EDITMSG".to_string()])
    );
}

#[test]
fn the_editor_command_knows_no_quoting() {
    assert_eq!(
        editor_command("\"my editor\" -w", "f"),
        (
            "\"my".to_string(),
            vec!["editor\"".to_string(), "-w".to_string(), "f".to_string()]
        )
    );
}

#[test]
fn the_file_is_one_argument_whatever_it_holds() {
    assert_eq!(
        editor_command("vim", "my file.txt"),
        ("vim".to_string(), vec!["my file.txt".to_string()])
    );
}

#[test]
fn two_spaces_in_a_row_enclose_an_empty_argument() {
    assert_eq!(
        editor_command("vim  -n", "f"),
        ("vim".to_string(), vec![String::new(), "-n".to_string(), "f".to_string()])
    );
}

#[test]
fn an_empty_editor_command_has_an_empty_program() {
    assert_eq!(editor_command("", "f"), (String::new(), vec!["f".to_string()]));
}

#[test]
fn editor_mode_seeds_the_file_and_runs_the_editor_on_it() {
    let editor = EditorConfig { command: "vim -n".to_string() };
    assert_eq!(
        editor_mode(".git/COMMIT_EDITMSG", "Fix bug", "# Please enter commit message", &editor),
        EditorDelivery {
            file: ".git/COMMIT_EDITMSG".to_string(),
            content: "Fix bug\n# Please enter commit message".to_string(),
            program: "vim".to_string(),
            arguments: vec!["-n".to_string(), ".git/COMMIT_EDITMSG".to_string()],
        }
    );
}

#[test]
fn a_child_that_ended_gives_its_exit_code() {
    assert_eq!(child_exit(Child::Editor, ChildRun::Exited { status: Some(0) }), Ok(0));
    assert_eq!(child_exit(Child::Editor, ChildRun::Exited { status: Some(2) }), Ok(2));
    assert_eq!(child_exit(Child::Commit, ChildRun::Exited { status: Some(128) }), Ok(128));
    assert_eq!(child_exit(Child::Commit, ChildRun::Exited { status: Some(0) }), Ok(0));
}

#[test]
fn a_child_that_ended_without_a_code_gives_255() {
    assert_eq!(child_exit(Child::Editor, ChildRun::Exited { status: None }), Ok(255));
    assert_eq!(child_exit(Child::Commit, ChildRun::Exited { status: None }), Ok(255));
}

#[test]
fn an_editor_that_cannot_be_started() {
    assert_eq!(
        child_exit(Child::Editor, ChildRun::NotLaunched { cause: "not found".to_string() }),
        Err(io_error("Failed to launch the editor", "not found"))
    );
}

#[test]
fn an_editor_whose_end_is_not_learned() {
    assert_eq!(
        child_exit(Child::Editor, ChildRun::Lost { cause: "interrupted".to_string() }),
        Err(io_error("Failed to get editor result", "interrupted"))
    );
}

#[test]
fn a_commit_command_that_cannot_be_started_is_an_io_error() {
    assert_eq!(
        child_exit(Child::Commit, ChildRun::NotLaunched { cause: "not found".to_string() }),
        Err(io_error("Failed to launch the commit command", "not found"))
    );
}

#[test]
fn a_commit_command_whose_end_is_not_learned_is_an_io_error() {
    assert_eq!(
        child_exit(Child::Commit, ChildRun::Lost { cause: "interrupted".to_string() }),
        Err(io_error("Failed to get commit result", "interrupted"))
    );
}

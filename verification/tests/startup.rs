use smart_committer::error::{SmartCommitterError, SmartCommitterErrorKind};
use smart_committer::pipeline::{Action, Instruction};
use smart_committer::startup::{
    config_created, config_missing, greet, repository_missing, startup_failed,
    NO_REPOSITORY_NOTICE, PROGRAM_NAME,
};

#[test]
fn the_program_is_called_smart_committer() {
    assert_eq!(PROGRAM_NAME, "smart-committer");
}

#[test]
fn a_new_configuration_file_is_announced() {
    assert_eq!(
        config_created("/home/u/.config/smart-committer/config.toml"),
        Instruction {
            notice: "Config file is created at /home/u/.config/smart-committer/config.toml\nEdit it to have correct configuration before using smart-committer!\n".to_string(),
            action: Action::Exit { code: 0 },
        }
    );
}

#[test]
fn a_missing_configuration_file_ends_the_start() {
    assert_eq!(
        config_missing("smart-committer"),
        Instruction {
            notice: "Smart-committer user config is not created! Please use following command to create the user config.\n\n  smart-committer --config\n\n".to_string(),
            action: Action::Exit { code: 1 },
        }
    );
}

#[test]
fn a_missing_repository_ends_the_start() {
    assert_eq!(
        repository_missing(),
        Instruction { notice: "No git repo found.\n".to_string(), action: Action::Exit { code: 1 } }
    );
    assert_eq!(NO_REPOSITORY_NOTICE, "No git repo found.\n");
}

#[test]
fn an_error_ends_the_start_with_its_text() {
    let error = SmartCommitterError {
        source: Some("denied".to_string()),
        kind: SmartCommitterErrorKind::IOError,
        message: "Failed to access the current directory.".to_string(),
    };
    assert_eq!(
        startup_failed(error),
        Instruction {
            notice: "IO Error: Failed to access the current directory.\ndenied\n".to_string(),
            action: Action::Exit { code: 1 },
        }
    );
}

#[test]
fn the_greeting_names_the_model() {
    assert_eq!(greet("gpt-4.1"), "\u{1F4F0} Smart-committer is using gpt-4.1\n");
}

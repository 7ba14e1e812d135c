use smart_committer::error::{SmartCommitterError, SmartCommitterErrorKind};

#[test]
fn new_keeps_what_it_is_given() {
    let e = SmartCommitterError::new(
        SmartCommitterErrorKind::VCSError,
        "message".to_string(),
        Some("cause".to_string()),
    );
    assert_eq!(e.kind, SmartCommitterErrorKind::VCSError);
    assert_eq!(e.message, "message");
    assert_eq!(e.source, Some("cause".to_string()));
}

#[test]
fn text_of_an_io_error() {
    let e = SmartCommitterError {
        source: None,
        kind: SmartCommitterErrorKind::IOError,
        message: "Home directory not found".to_string(),
    };
    assert_eq!(e.to_text(), "IO Error: Home directory not found");
}

#[test]
fn text_of_a_vcs_error() {
    let e = SmartCommitterError {
        source: None,
        kind: SmartCommitterErrorKind::VCSError,
        message: "VCS failed with exit code: 128".to_string(),
    };
    assert_eq!(e.to_text(), "VCS Error: VCS failed with exit code: 128");
}

#[test]
fn text_of_a_model_error() {
    let e = SmartCommitterError {
        source: None,
        kind: SmartCommitterErrorKind::ModelError,
        message: "Failed to fetch output from the LLM.".to_string(),
    };
    assert_eq!(e.to_text(), "Model Error: Failed to fetch output from the LLM.");
}

#[test]
fn text_shows_the_source_on_a_line_of_its_own() {
    let e = SmartCommitterError {
        source: Some("No such file or directory (os error 2)".to_string()),
        kind: SmartCommitterErrorKind::IOError,
        message: "Failed to open file: COMMIT_EDITMSG".to_string(),
    };
    assert_eq!(
        e.to_text(),
        "IO Error: Failed to open file: COMMIT_EDITMSG\nNo such file or directory (os error 2)"
    );
}

#[test]
fn text_of_an_error_with_empty_parts() {
    let e = SmartCommitterError {
        source: Some(String::new()),
        kind: SmartCommitterErrorKind::ModelError,
        message: String::new(),
    };
    assert_eq!(e.to_text(), "Model Error: \n");
}

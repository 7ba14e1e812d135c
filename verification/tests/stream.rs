use smart_committer::error::{SmartCommitterError, SmartCommitterErrorKind};
use smart_committer::stream::{accumulate, stream_failure, ResponseFragment, StreamAccumulator};

fn content(text: &str) -> ResponseFragment {
    ResponseFragment { content: Some(text.to_string()), reasoning_content: None }
}

fn reasoning(text: &str) -> ResponseFragment {
    ResponseFragment { content: None, reasoning_content: Some(text.to_string()) }
}

fn model_error(cause: &str) -> SmartCommitterError {
    SmartCommitterError {
        source: Some(cause.to_string()),
        kind: SmartCommitterErrorKind::ModelError,
        message: "Failed to fetch output from the LLM.".to_string(),
    }
}

#[test]
fn an_empty_stream_gives_the_empty_message() {
    assert_eq!(accumulate(Vec::new()), Ok(String::new()));
}

#[test]
fn fragments_are_joined_in_the_order_of_arrival() {
    let items = vec![Ok(content("Add ")), Ok(content("line to x"))];
    assert_eq!(accumulate(items), Ok("Add line to x".to_string()));
}

#[test]
fn the_order_of_the_fragments_matters() {
    let items = vec![Ok(content("line to x")), Ok(content("Add "))];
    assert_eq!(accumulate(items), Ok("line to xAdd ".to_string()));
}

#[test]
fn the_result_does_not_depend_on_where_the_text_is_cut() {
    let text = "Fix the parser\n\n- handle empty input\n- add tests";
    let whole = accumulate(vec![Ok(content(text))]);
    assert_eq!(whole, Ok(text.to_string()));
    let characters: Vec<char> = text.chars().collect();
    let mut cut: usize = 0;
    while cut <= characters.len() {
        let first: String = characters[..cut].iter().collect();
        let second: String = characters[cut..].iter().collect();
        let items = vec![Ok(content(&first)), Ok(content(&second))];
        assert_eq!(accumulate(items), Ok(text.to_string()));
        cut += 1;
    }
    let one_by_one: Vec<Result<ResponseFragment, String>> =
        characters.iter().map(|c| Ok(content(&c.to_string()))).collect();
    assert_eq!(accumulate(one_by_one), Ok(text.to_string()));
}

#[test]
fn fragments_without_content_add_nothing() {
    let none = ResponseFragment { content: None, reasoning_content: None };
    let items = vec![Ok(none.clone()), Ok(content("a")), Ok(none), Ok(content("")), Ok(content("b"))];
    assert_eq!(accumulate(items), Ok("ab".to_string()));
}

#[test]
fn reasoning_is_not_part_of_the_message() {
    let both = ResponseFragment {
        content: Some("Fix".to_string()),
        reasoning_content: Some("let me think".to_string()),
    };
    let items = vec![Ok(reasoning("hmm ")), Ok(both), Ok(reasoning("done")), Ok(content(" bug"))];
    assert_eq!(accumulate(items), Ok("Fix bug".to_string()));
}

#[test]
fn an_error_after_one_fragment_is_a_model_error() {
    let items = vec![Ok(content("Add ")), Err("connection reset".to_string())];
    assert_eq!(accumulate(items), Err(model_error("connection reset")));
}

#[test]
fn an_error_as_the_first_item_is_a_model_error() {
    let items = vec![Err("timeout".to_string()), Ok(content("Add "))];
    assert_eq!(accumulate(items), Err(model_error("timeout")));
}

#[test]
fn what_follows_an_error_has_no_part_in_the_result() {
    let long = vec![
        Ok(content("a")),
        Err("first".to_string()),
        Ok(content("b")),
        Err("second".to_string()),
        Ok(content("c")),
    ];
    let short = vec![Ok(content("a")), Err("first".to_string())];
    assert_eq!(accumulate(long), Err(model_error("first")));
    assert_eq!(accumulate(short), Err(model_error("first")));
}

#[test]
fn the_error_keeps_its_kind_at_every_place() {
    let mut place: usize = 0;
    while place < 5 {
        let mut items: Vec<Result<ResponseFragment, String>> = Vec::new();
        let mut i: usize = 0;
        while i < 5 {
            if i == place {
                items.push(Err("broken".to_string()));
            } else {
                items.push(Ok(content("x")));
            }
            i += 1;
        }
        match accumulate(items) {
            Err(e) => assert_eq!(e.kind, SmartCommitterErrorKind::ModelError),
            Ok(text) => panic!("a result {:?} in spite of the error", text),
        }
        place += 1;
    }
}

#[test]
fn stream_failure_names_the_cause() {
    assert_eq!(stream_failure("eof".to_string()), model_error("eof"));
}

#[test]
fn a_new_accumulator_holds_nothing() {
    let accumulator = StreamAccumulator::new();
    assert_eq!(accumulator.progress(), "Drafting diff message");
    assert_eq!(accumulator.finish(), "");
}

#[test]
fn the_accumulator_appends_each_fragment() {
    let accumulator = StreamAccumulator::new();
    let accumulator = accumulator.apply(content("Add "));
    let accumulator = accumulator.apply(reasoning("thinking"));
    let accumulator = accumulator.apply(content("line to x"));
    assert_eq!(accumulator.finish(), "Add line to x");
}

#[test]
fn the_accumulator_does_not_hand_back_what_it_held() {
    let before = StreamAccumulator::new().apply(content("a"));
    let after = StreamAccumulator::new().apply(content("a")).apply(content("b"));
    assert_ne!(before, after);
    assert_eq!(after.finish(), "ab");
}

#[test]
fn the_progress_bar_fills_from_the_left() {
    let mut accumulator = StreamAccumulator::new();
    accumulator = accumulator.apply(content("a"));
    assert_eq!(accumulator.progress(), "\rDrafting diff message.         ");
    accumulator = accumulator.apply(content("b"));
    assert_eq!(accumulator.progress(), "\rDrafting diff message..        ");
    accumulator = accumulator.apply(content("c"));
    assert_eq!(accumulator.progress(), "\rDrafting diff message...       ");
}

#[test]
fn the_progress_bar_is_empty_again_after_the_tenth_fragment() {
    let mut accumulator = StreamAccumulator::new();
    let mut n: usize = 0;
    while n < 9 {
        accumulator = accumulator.apply(content("ab"));
        n += 1;
    }
    assert_eq!(accumulator.progress(), "\rDrafting diff message......... ");
    accumulator = accumulator.apply(content("ab"));
    assert_eq!(accumulator.progress(), "\rDrafting diff message          ");
    accumulator = accumulator.apply(content("ab"));
    assert_eq!(accumulator.progress(), "\rDrafting diff message.         ");
    assert_eq!(accumulator.finish(), "ab".repeat(11));
}

#[test]
fn the_progress_line_is_always_as_wide() {
    let mut accumulator = StreamAccumulator::new();
    let mut n: usize = 0;
    while n < 35 {
        accumulator = accumulator.apply(reasoning("r"));
        let line = accumulator.progress();
        assert_eq!(line.chars().count(), 1 + "Drafting diff message".len() + 10);
        let filled = line.chars().filter(|c| *c == '.').count();
        assert_eq!(filled, (n + 1) % 10);
        n += 1;
    }
}

use smart_committer::text::{
    copy_optional, decimal_text, is_blank, is_white_space, split_white_space,
};

#[test]
fn white_space_agrees_with_the_standard_library_on_every_character() {
    let mut code: u32 = 0;
    while code <= 0x10FFFF {
        if let Some(c) = char::from_u32(code) {
            assert_eq!(is_white_space(c), c.is_whitespace(), "U+{:04X}", code);
        }
        code += 1;
    }
}

#[test]
fn white_space_knows_the_common_characters() {
    assert!(is_white_space(' '));
    assert!(is_white_space('\t'));
    assert!(is_white_space('\n'));
    assert!(is_white_space('\r'));
    assert!(is_white_space('\u{00A0}'));
    assert!(is_white_space('\u{3000}'));
    assert!(!is_white_space('a'));
    assert!(!is_white_space('0'));
    assert!(!is_white_space('\u{200B}'));
    assert!(!is_white_space('\u{180E}'));
}

#[test]
fn the_empty_text_is_blank() {
    assert!(is_blank(""));
}

#[test]
fn white_space_alone_is_blank() {
    assert!(is_blank(" "));
    assert!(is_blank(" \t\r\n"));
    assert!(is_blank("\n\n\n"));
    assert!(is_blank("\u{2003}\u{00A0}"));
}

#[test]
fn one_visible_character_is_not_blank() {
    assert!(!is_blank("a"));
    assert!(!is_blank("   a"));
    assert!(!is_blank("a   "));
    assert!(!is_blank(" \n x \n "));
    assert!(!is_blank("diff --git a/x b/x\n+line"));
}

#[test]
fn blank_agrees_with_trim() {
    let samples = ["", " ", "\t", "x", " x", "x ", "\u{0085}", "\u{FEFF}", "é ", " \u{1680} "];
    for sample in samples {
        assert_eq!(is_blank(sample), sample.trim().len() == 0, "{:?}", sample);
    }
}

#[test]
fn split_cuts_at_each_space() {
    assert_eq!(split_white_space("code --wait"), vec!["code".to_string(), "--wait".to_string()]);
    assert_eq!(
        split_white_space("emacs -nw -Q"),
        vec!["emacs".to_string(), "-nw".to_string(), "-Q".to_string()]
    );
}

#[test]
fn split_of_a_single_word_is_that_word() {
    assert_eq!(split_white_space("nano"), vec!["nano".to_string()]);
}

#[test]
fn split_of_the_empty_text_is_one_empty_piece() {
    assert_eq!(split_white_space(""), vec![String::new()]);
}

#[test]
fn split_keeps_empty_pieces() {
    assert_eq!(
        split_white_space("vim  -n"),
        vec!["vim".to_string(), String::new(), "-n".to_string()]
    );
    assert_eq!(split_white_space(" vim"), vec![String::new(), "vim".to_string()]);
    assert_eq!(split_white_space("vim "), vec!["vim".to_string(), String::new()]);
    assert_eq!(split_white_space(" "), vec![String::new(), String::new()]);
}

#[test]
fn split_cuts_at_other_white_space_too() {
    assert_eq!(
        split_white_space("vim\t-n\nfile"),
        vec!["vim".to_string(), "-n".to_string(), "file".to_string()]
    );
}

#[test]
fn split_agrees_with_the_standard_library_where_only_spaces_separate() {
    let samples = ["", "a", "a b", "a  b", " a b ", "héllo wörld", "x y z w"];
    for sample in samples {
        let expected: Vec<String> = sample.split(' ').map(|piece| piece.to_string()).collect();
        assert_eq!(split_white_space(sample), expected, "{:?}", sample);
    }
}

#[test]
fn split_gives_one_piece_more_than_white_space_characters() {
    let samples = ["", " ", "a b c", "\t\t", "no-space", " lead", "trail "];
    for sample in samples {
        let spaces = sample.chars().filter(|c| c.is_whitespace()).count();
        let pieces = split_white_space(sample);
        assert_eq!(pieces.len(), spaces + 1, "{:?}", sample);
        let joined: String = pieces.concat();
        let visible: String = sample.chars().filter(|c| !c.is_whitespace()).collect();
        assert_eq!(joined, visible);
    }
}

#[test]
fn split_handles_characters_of_several_bytes() {
    assert_eq!(
        split_white_space("é\u{3000}日本語 x"),
        vec!["é".to_string(), "日本語".to_string(), "x".to_string()]
    );
}

#[test]
fn decimal_of_small_numbers() {
    assert_eq!(decimal_text(0), "0");
    assert_eq!(decimal_text(1), "1");
    assert_eq!(decimal_text(9), "9");
    assert_eq!(decimal_text(10), "10");
    assert_eq!(decimal_text(128), "128");
    assert_eq!(decimal_text(255), "255");
}

#[test]
fn decimal_of_negative_numbers() {
    assert_eq!(decimal_text(-1), "-1");
    assert_eq!(decimal_text(-10), "-10");
    assert_eq!(decimal_text(-1073741510), "-1073741510");
}

#[test]
fn decimal_of_the_extremes() {
    assert_eq!(decimal_text(i32::MAX), "2147483647");
    assert_eq!(decimal_text(i32::MIN), "-2147483648");
}

#[test]
fn decimal_agrees_with_the_standard_library() {
    let mut n: i64 = i32::MIN as i64;
    while n <= i32::MAX as i64 {
        let i = n as i32;
        assert_eq!(decimal_text(i), i.to_string());
        n += 7919 * 13;
    }
    for i in -1000..1000 {
        assert_eq!(decimal_text(i), i.to_string());
    }
}

#[test]
fn copy_of_an_optional_text() {
    assert_eq!(copy_optional(&None), None);
    assert_eq!(copy_optional(&Some("abc".to_string())), Some("abc".to_string()));
}

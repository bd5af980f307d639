use genesis_kit::text::{characters, copy_optional, copy_text, first_line_of, word};

fn chars(text: &str) -> Vec<char> {
    text.chars().collect()
}

#[test]
fn characters_are_those_of_the_text() {
    assert_eq!(characters("a\u{e9}\u{1f680}"), vec!['a', '\u{e9}', '\u{1f680}']);
    assert_eq!(characters(""), Vec::<char>::new());
}

#[test]
fn first_line_ends_before_the_line_feed() {
    assert_eq!(first_line_of("one two\nthree"), chars("one two"));
    assert_eq!(first_line_of("one two\r\nthree"), chars("one two"));
    assert_eq!(first_line_of("one two"), chars("one two"));
    assert_eq!(first_line_of("one\rtwo\n"), chars("one\rtwo"));
    assert_eq!(first_line_of("\nthree"), chars(""));
    assert_eq!(first_line_of("\r\n"), chars(""));
    assert_eq!(first_line_of("one\r"), chars("one"));
    assert_eq!(first_line_of(""), chars(""));
}

#[test]
fn words_are_separated_by_white_space() {
    let line = chars("  alpha\tbeta \u{a0} gamma\u{3000}delta  ");
    assert_eq!(word(&line, 0), Some("alpha".to_string()));
    assert_eq!(word(&line, 1), Some("beta".to_string()));
    assert_eq!(word(&line, 2), Some("gamma".to_string()));
    assert_eq!(word(&line, 3), Some("delta".to_string()));
    assert_eq!(word(&line, 4), None);
}

#[test]
fn words_of_texts_without_words() {
    assert_eq!(word(&chars(""), 0), None);
    assert_eq!(word(&chars(" \t "), 0), None);
    assert_eq!(word(&chars("x"), 0), Some("x".to_string()));
    assert_eq!(word(&chars("x"), 1), None);
}

#[test]
fn words_agree_with_split_whitespace() {
    let text = "4821  shield/test-kit  succeeded  2024-01-01@10:00  3m12s";
    let line = chars(text);
    for (i, expected) in text.split_whitespace().enumerate() {
        assert_eq!(word(&line, i), Some(expected.to_string()));
    }
    assert_eq!(word(&line, text.split_whitespace().count()), None);
}

#[test]
fn copies_hold_the_same_text() {
    assert_eq!(copy_text(&"abc".to_string()), "abc");
    assert_eq!(copy_optional(&Some("abc".to_string())), Some("abc".to_string()));
    assert_eq!(copy_optional(&None), None);
}

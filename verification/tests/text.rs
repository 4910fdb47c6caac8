use gallery_sync::text::{
    append_chars, chars_of, decimal_of, duplicate_text, extension_of, string_of,
};

fn chars(text: &str) -> Vec<char> {
    text.chars().collect()
}

#[test]
fn a_text_is_its_characters() {
    assert_eq!(chars_of("a\u{e9}\u{4e2d}"), vec!['a', '\u{e9}', '\u{4e2d}']);
    assert!(chars_of("").is_empty());
    assert_eq!(string_of(&chars("a\u{e9}\u{4e2d}")), "a\u{e9}\u{4e2d}");
    assert_eq!(string_of(&Vec::new()), "");
    for text in ["", "x", "hello world", "\u{1f600} smile"] {
        assert_eq!(string_of(&chars_of(text)), text);
    }
}

#[test]
fn numbers_are_written_in_decimal() {
    for n in [0i64, 1, 9, 10, 11, 99, 100, 12345, -1, -10, -12345, i64::MAX, i64::MIN, i32::MIN as i64] {
        assert_eq!(string_of(&decimal_of(n)), n.to_string());
    }
}

#[test]
fn the_extension_is_what_follows_the_last_dot() {
    assert_eq!(extension_of(&chars("a.b.c")), chars("c"));
    assert_eq!(extension_of(&chars("a.")), chars(""));
    assert_eq!(extension_of(&chars(".hidden")), chars("hidden"));
    assert_eq!(extension_of(&chars("nodot")), chars("nodot"));
    assert_eq!(extension_of(&chars("")), chars(""));
    for text in ["a.b.c", "a.", ".x", "plain", "", "..", "x.y/z"] {
        assert_eq!(string_of(&extension_of(&chars(text))), text.split('.').last().unwrap());
    }
}

#[test]
fn characters_are_appended_in_order() {
    let mut text = chars("ab");
    append_chars(&mut text, &chars("cd"));
    assert_eq!(text, chars("abcd"));
    append_chars(&mut text, &Vec::new());
    assert_eq!(text, chars("abcd"));
}

#[test]
fn a_text_that_may_be_absent_is_copied_as_it_is() {
    assert_eq!(duplicate_text(&Some("x".to_string())), Some("x".to_string()));
    assert_eq!(duplicate_text(&None), None);
}

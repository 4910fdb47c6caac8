use gallery_sync::message::{create_message_text, pad_left, sanitize, NAMESPACE_WIDTH};
use gallery_sync::trans::EhTagTransDB;
use indexmap::IndexMap;

fn groups(entries: &[(&str, &[&str])]) -> IndexMap<String, Vec<String>> {
    let mut tags = IndexMap::new();
    for (namespace, names) in entries {
        tags.insert(namespace.to_string(), names.iter().map(|n| n.to_string()).collect());
    }
    tags
}

fn some_translations() -> EhTagTransDB {
    let mut trans = EhTagTransDB::new();
    trans.set_namespace("language".to_string(), "lang".to_string());
    trans.set_tag("language".to_string(), "chinese".to_string(), "zh-CN".to_string());
    trans.set_tag("artist".to_string(), "chinese".to_string(), "not this one".to_string());
    trans
}

#[test]
fn separators_become_underscores() {
    assert_eq!(sanitize("big-breasts"), "big_breasts");
    assert_eq!(sanitize("a/b"), "a_b");
    assert_eq!(sanitize("a\u{b7}b"), "a_b");
    assert_eq!(sanitize("sole female"), "sole_female");
    assert_eq!(sanitize("a - b / c \u{b7} d"), "a___b___c___d");
    assert_eq!(sanitize("plain"), "plain");
    assert_eq!(sanitize(""), "");
    assert_eq!(sanitize("under_score"), "under_score");
    // Other punctuation and other scripts are kept.
    assert_eq!(sanitize("a.b+c"), "a.b+c");
    assert_eq!(sanitize("\u{4e2d}\u{6587} \u{7ffb}\u{8bd1}"), "\u{4e2d}\u{6587}_\u{7ffb}\u{8bd1}");
}

#[test]
fn sanitizing_twice_is_sanitizing_once() {
    for tag in ["a-b", "x / y", "no\u{b7}dots", "__", "-"] {
        let once = sanitize(tag);
        assert_eq!(sanitize(&once), once);
        assert_eq!(once.chars().count(), tag.chars().count());
        assert!(!once.contains(['-', '/', '\u{b7}', ' ']));
    }
}

#[test]
fn padding_fills_up_on_the_left() {
    assert_eq!(pad_left("ab", 6), "    ab");
    assert_eq!(pad_left("abcdef", 6), "abcdef");
    assert_eq!(pad_left("abcdefgh", 6), "abcdefgh");
    assert_eq!(pad_left("", 3), "   ");
    assert_eq!(pad_left("x", 0), "x");
    // The width counts characters, not bytes.
    assert_eq!(pad_left("\u{8bed}\u{8a00}", 4), "  \u{8bed}\u{8a00}");
    assert_eq!(NAMESPACE_WIDTH, 6);
}

#[test]
fn names_without_a_translation_are_shown_as_they_are() {
    let trans = some_translations();
    assert_eq!(trans.trans_namespace("language"), "lang");
    assert_eq!(trans.trans_namespace("artist"), "artist");
    assert_eq!(trans.trans_raw("language", "chinese"), "zh-CN");
    assert_eq!(trans.trans_raw("artist", "chinese"), "not this one");
    assert_eq!(trans.trans_raw("language", "english"), "english");
    assert_eq!(trans.trans_raw("parody", "chinese"), "chinese");
    assert_eq!(EhTagTransDB::new().trans_raw("language", "chinese"), "chinese");
}

#[test]
fn a_later_translation_replaces_an_earlier_one() {
    let mut trans = some_translations();
    trans.set_tag("language".to_string(), "chinese".to_string(), "zh".to_string());
    trans.set_namespace("language".to_string(), "tongue".to_string());
    assert_eq!(trans.trans_raw("language", "chinese"), "zh");
    assert_eq!(trans.trans_namespace("language"), "tongue");
}

#[test]
fn the_message_lists_the_tags_and_links_the_article_and_the_source() {
    let trans = some_translations();
    let tags = groups(&[
        ("language", &["chinese", "translated"]),
        ("female", &["sole female", "big-breasts"]),
    ]);
    let text = create_message_text(
        &trans,
        &tags,
        "A Title",
        "https://telegra.ph/a-title",
        "https://exhentai.org/g/555/abcdef",
    );
    assert_eq!(
        text,
        "<code>  lang</code>: #zh_CN #translated\n\
         <code>female</code>: #sole_female #big_breasts\n\
         <b>Preview:</b> <a href=\"https://telegra.ph/a-title\">A Title</a>\n\
         <b>Source:</b> <a href=\"https://exhentai.org/g/555/abcdef\">https://exhentai.org/g/555/abcdef</a>"
    );
}

#[test]
fn the_message_of_a_gallery_without_tags_has_the_two_links() {
    let text = create_message_text(&EhTagTransDB::new(), &IndexMap::new(), "T", "A", "S");
    assert_eq!(text, "<b>Preview:</b> <a href=\"A\">T</a>\n<b>Source:</b> <a href=\"S\">S</a>");
}

#[test]
fn a_group_without_tags_has_an_empty_line() {
    let tags = groups(&[("misc", &[])]);
    let text = create_message_text(&EhTagTransDB::new(), &tags, "T", "A", "S");
    assert_eq!(
        text,
        "<code>  misc</code>: \n<b>Preview:</b> <a href=\"A\">T</a>\n<b>Source:</b> <a href=\"S\">S</a>"
    );
}

#[test]
fn markup_in_titles_and_names_is_escaped() {
    let mut trans = EhTagTransDB::new();
    trans.set_namespace("a".to_string(), "<a&b>".to_string());
    let tags = groups(&[("a", &["x"])]);
    let text = create_message_text(&trans, &tags, "1 < 2 & 3 > 2", "https://t/?a=1&b=2", "s");
    assert_eq!(
        text,
        "<code> &lt;a&amp;b&gt;</code>: #x\n\
         <b>Preview:</b> <a href=\"https://t/?a=1&amp;b=2\">1 &lt; 2 &amp; 3 &gt; 2</a>\n\
         <b>Source:</b> <a href=\"s\">s</a>"
    );
}

#[test]
fn the_same_input_gives_the_same_text() {
    let trans = some_translations();
    let tags = groups(&[("language", &["chinese"]), ("misc", &["a b", "c/d"])]);
    let first = create_message_text(&trans, &tags, "T", "A", "S");
    let second = create_message_text(&trans, &tags.clone(), "T", "A", "S");
    assert_eq!(first.as_bytes(), second.as_bytes());
}

#[test]
fn the_groups_keep_their_order() {
    let one = groups(&[("b", &["1"]), ("a", &["2"])]);
    let other = groups(&[("a", &["2"]), ("b", &["1"])]);
    let trans = EhTagTransDB::new();
    let first = create_message_text(&trans, &one, "T", "A", "S");
    let second = create_message_text(&trans, &other, "T", "A", "S");
    assert!(first.starts_with("<code>     b</code>: #1\n<code>     a</code>: #2\n"));
    assert!(second.starts_with("<code>     a</code>: #2\n<code>     b</code>: #1\n"));
}

//! The text of the message that announces a gallery.
//!
//! One line per tag group, with the namespace in a fixed-width column and
//! each tag as a hashtag, then a line that links to the article and a line
//! that links to the gallery at the catalog. The text is a function of the
//! tags, the title, the two addresses and the translation table alone.

use crate::tags::{group_views, tag_entries, tags_list};
use crate::text::{append_chars, chars_of, string_of};
use crate::trans::{EhTagTransDB, TransView};
use indexmap::IndexMap;
use vstd::prelude::*;
use vstd::string::StringExecFns;

verus! {

/// The width of the namespace column, in characters.
pub const NAMESPACE_WIDTH: usize = 6;

/// What stands for one character in HTML text: `&`, `<` and `>` are
/// written as entities, every other character as itself.
pub open spec fn escaped_char(c: char) -> Seq<char> {
    if c == '&' {
        "&amp;"@
    } else if c == '<' {
        "&lt;"@
    } else if c == '>' {
        "&gt;"@
    } else {
        seq![c]
    }
}

/// `text` with `&`, `<` and `>` written as entities.
pub open spec fn escaped(text: Seq<char>) -> Seq<char>
    decreases text.len(),
{
    if text.len() == 0 {
        Seq::empty()
    } else {
        escaped(text.drop_last()) + escaped_char(text.last())
    }
}

/// A link to `url` that shows `text`.
pub open spec fn link_markup(url: Seq<char>, text: Seq<char>) -> Seq<char> {
    "<a href=\""@ + escaped(url) + "\">"@ + escaped(text) + "</a>"@
}

/// `text` in the fixed-width font.
pub open spec fn code_markup(text: Seq<char>) -> Seq<char> {
    "<code>"@ + escaped(text) + "</code>"@
}

/// `teloxide::utils::html::link`: an anchor element whose `href` is the
/// escaped address and whose content is the escaped text, where escaping
/// replaces `&`, `<` and `>` by their entities and nothing else.
#[verifier::external_body]
pub(crate) fn html_link(url: &str, text: &str) -> (out: String)
    ensures
        out@ == link_markup(url@, text@),
{
    teloxide::utils::html::link(url, text)
}

/// `teloxide::utils::html::code_inline`: a `code` element around the
/// escaped text.
#[verifier::external_body]
fn html_code_inline(text: &str) -> (out: String)
    ensures
        out@ == code_markup(text@),
{
    teloxide::utils::html::code_inline(text)
}

/// The characters that may not stand in a hashtag: hyphen, slash, middle
/// dot and space.
pub open spec fn is_separator(c: char) -> bool {
    c == '-' || c == '/' || c == '\u{b7}' || c == ' '
}

/// `tag` with every separator replaced by an underscore.
pub open spec fn sanitized(tag: Seq<char>) -> Seq<char> {
    tag.map_values(|c: char| if is_separator(c) { '_' } else { c })
}

/// `text` with spaces in front, as many as it takes to make it `width`
/// characters long; `text` itself where it is that long or longer.
pub open spec fn padded_left(text: Seq<char>, width: int) -> Seq<char> {
    if text.len() >= width {
        text
    } else {
        Seq::new((width - text.len()) as nat, |i: int| ' ') + text
    }
}

pub open spec fn hashtag(trans: TransView, namespace: Seq<char>, tag: Seq<char>) -> Seq<char> {
    seq!['#'] + sanitized(trans.tag_name(namespace, tag))
}

/// The tags of a group as hashtags, with a space between each two.
pub open spec fn hashtags(trans: TransView, namespace: Seq<char>, tags: Seq<Seq<char>>) -> Seq<
    char,
>
    decreases tags.len(),
{
    if tags.len() == 0 {
        Seq::empty()
    } else if tags.len() == 1 {
        hashtag(trans, namespace, tags[0])
    } else {
        hashtags(trans, namespace, tags.drop_last()) + seq![' '] + hashtag(
            trans,
            namespace,
            tags.last(),
        )
    }
}

/// The line for one tag group.
pub open spec fn tag_line(trans: TransView, namespace: Seq<char>, tags: Seq<Seq<char>>) -> Seq<
    char,
> {
    code_markup(padded_left(trans.namespace_name(namespace), NAMESPACE_WIDTH as int)) + ": "@
        + hashtags(trans, namespace, tags) + "\n"@
}

/// The lines for the tag groups, in their order.
pub open spec fn tag_lines(trans: TransView, groups: Seq<(Seq<char>, Seq<Seq<char>>)>) -> Seq<
    char,
>
    decreases groups.len(),
{
    if groups.len() == 0 {
        Seq::empty()
    } else {
        tag_lines(trans, groups.drop_last()) + tag_line(trans, groups.last().0, groups.last().1)
    }
}

/// The text of the message for a gallery.
pub open spec fn message_text(
    trans: TransView,
    groups: Seq<(Seq<char>, Seq<Seq<char>>)>,
    title: Seq<char>,
    article: Seq<char>,
    source: Seq<char>,
) -> Seq<char> {
    tag_lines(trans, groups) + "<b>Preview:</b> "@ + link_markup(article, title) + "\n"@
        + "<b>Source:</b> "@ + link_markup(source, source)
}

/// `tag` with every separator replaced by an underscore.
pub fn sanitize(tag: &str) -> (clean: String)
    ensures
        clean@ == sanitized(tag@),
{
    let chars: Vec<char> = chars_of(tag);
    let mut clean: Vec<char> = Vec::new();
    let mut i: usize = 0;
    while i < chars.len()
        invariant
            i <= chars@.len(),
            clean@ == sanitized(chars@.take(i as int)),
        decreases chars@.len() - i,
    {
        let c: char = chars[i];
        let out: char = if c == '-' || c == '/' || c == '\u{b7}' || c == ' ' {
            '_'
        } else {
            c
        };
        clean.push(out);
        proof {
            assert(clean@ =~= sanitized(chars@.take(i + 1)));
        }
        i += 1;
    }
    proof {
        assert(chars@.take(chars@.len() as int) =~= chars@);
    }
    string_of(&clean)
}

/// `text` with spaces in front, to make it `width` characters long.
pub fn pad_left(text: &str, width: usize) -> (out: String)
    ensures
        out@ == padded_left(text@, width as int),
{
    let chars: Vec<char> = chars_of(text);
    if chars.len() >= width {
        return string_of(&chars);
    }
    let missing: usize = width - chars.len();
    let mut out: Vec<char> = Vec::new();
    let mut i: usize = 0;
    while i < missing
        invariant
            i <= missing,
            out@ == Seq::new(i as nat, |k: int| ' '),
        decreases missing - i,
    {
        out.push(' ');
        proof {
            assert(out@ =~= Seq::new((i + 1) as nat, |k: int| ' '));
        }
        i += 1;
    }
    append_chars(&mut out, &chars);
    string_of(&out)
}

/// The tags of a group as hashtags, with a space between each two.
fn hashtag_list(trans: &EhTagTransDB, namespace: &str, tags: &Vec<String>) -> (out: String)
    requires
        trans.wf(),
    ensures
        out@ == hashtags(trans@, namespace@, tags.deep_view()),
{
    let mut out = String::new();
    let mut i: usize = 0;
    while i < tags.len()
        invariant
            i <= tags@.len(),
            trans.wf(),
            out@ == hashtags(trans@, namespace@, tags.deep_view().take(i as int)),
        decreases tags@.len() - i,
    {
        let ghost before = out@;
        if i > 0 {
            out.push(' ');
        }
        out.push('#');
        let name: String = trans.trans_raw(namespace, tags[i].as_str());
        let clean: String = sanitize(name.as_str());
        out.append(clean.as_str());
        proof {
            let all = tags.deep_view();
            assert(all.take(i + 1).drop_last() =~= all.take(i as int));
            assert(all.take(i + 1).last() == tags@[i as int]@);
            let tag = hashtag(trans@, namespace@, tags@[i as int]@);
            if i == 0 {
                assert(before =~= Seq::<char>::empty());
                assert(all.take(1)[0] == tags@[0]@);
                assert(out@ =~= tag);
            } else {
                assert(out@ =~= before + seq![' '] + tag);
            }
        }
        i += 1;
    }
    proof {
        assert(tags.deep_view().take(tags@.len() as int) =~= tags.deep_view());
    }
    out
}

/// The text of the message for a gallery with the given tags and title,
/// whose article is at `article` and which the catalog has at `source`.
pub fn create_message_text(
    trans: &EhTagTransDB,
    tags: &IndexMap<String, Vec<String>>,
    title: &str,
    article: &str,
    source: &str,
) -> (text: String)
    requires
        trans.wf(),
    ensures
        text@ == message_text(trans@, tag_entries(*tags), title@, article@, source@),
{
    let mut text = String::new();
    let groups: Vec<(String, Vec<String>)> = tags_list(tags);
    let mut i: usize = 0;
    while i < groups.len()
        invariant
            i <= groups@.len(),
            group_views(groups@) == tag_entries(*tags),
            trans.wf(),
            text@ == tag_lines(trans@, tag_entries(*tags).take(i as int)),
        decreases groups@.len() - i,
    {
        let ghost before = text@;
        let ghost entries = tag_entries(*tags);
        proof {
            assert(entries.take(i + 1).drop_last() =~= entries.take(i as int));
            assert(entries.take(i + 1).last() == entries[i as int]);
            assert(entries[i as int] == (groups@[i as int].0@, groups@[i as int].1.deep_view()));
        }
        let namespace: &String = &groups[i].0;
        let label: String = pad_left(
            trans.trans_namespace(namespace.as_str()).as_str(),
            NAMESPACE_WIDTH,
        );
        text.append(html_code_inline(label.as_str()).as_str());
        text.append(": ");
        text.append(hashtag_list(trans, namespace.as_str(), &groups[i].1).as_str());
        text.append("\n");
        proof {
            assert(text@ =~= before + tag_line(trans@, entries[i as int].0, entries[i as int].1));
        }
        i += 1;
    }
    proof {
        assert(tag_entries(*tags).take(groups@.len() as int) =~= tag_entries(*tags));
    }
    text.append("<b>Preview:</b> ");
    text.append(html_link(article, title).as_str());
    text.append("\n");
    text.append("<b>Source:</b> ");
    text.append(html_link(source, source).as_str());
    text
}

/// Equal inputs give equal texts.
pub proof fn lemma_message_text_is_a_function(
    trans: TransView,
    groups_a: Seq<(Seq<char>, Seq<Seq<char>>)>,
    groups_b: Seq<(Seq<char>, Seq<Seq<char>>)>,
    title_a: Seq<char>,
    title_b: Seq<char>,
    article_a: Seq<char>,
    article_b: Seq<char>,
    source_a: Seq<char>,
    source_b: Seq<char>,
)
    requires
        groups_a =~~= groups_b,
        title_a =~= title_b,
        article_a =~= article_b,
        source_a =~= source_b,
    ensures
        message_text(trans, groups_a, title_a, article_a, source_a) == message_text(
            trans,
            groups_b,
            title_b,
            article_b,
            source_b,
        ),
{
}

/// A sanitized tag is as long as the tag, holds no separator, has an
/// underscore wherever the tag had a separator, and the tag's own character
/// everywhere else.
pub proof fn lemma_sanitized_has_no_separator(tag: Seq<char>)
    ensures
        sanitized(tag).len() == tag.len(),
        forall|i: int| 0 <= i < tag.len() ==> !is_separator(#[trigger] sanitized(tag)[i]),
        forall|i: int|
            0 <= i < tag.len() ==> #[trigger] sanitized(tag)[i] == if is_separator(tag[i]) {
                '_'
            } else {
                tag[i]
            },
{
}

/// Sanitizing a sanitized tag changes nothing.
pub proof fn lemma_sanitized_twice(tag: Seq<char>)
    ensures
        sanitized(sanitized(tag)) == sanitized(tag),
{
    assert(sanitized(sanitized(tag)) =~= sanitized(tag));
}

} // verus!

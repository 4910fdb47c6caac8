//! The detail of a gallery, put together from the pages of the catalog
//! that show it.
//!
//! The first page of a gallery holds its titles, its tags and its dates,
//! and the addresses of its first pages; each page names the next, until
//! one names none. The driver fetches a page and picks the texts out of it
//! ([`RawGallery`]); [`read_gallery`] reads the first page into a draft,
//! [`GalleryDraft::extend`] adds what a further page holds, and
//! [`GalleryDraft::finish`] makes the gallery of it.

use crate::ehentai::{gallery_in, page_list, pages_in, parse_i32, parsed_i32, url_view};
use crate::gallery::{EhGallery, EhGalleryUrl, GalleryUrlView, GalleryView};
use crate::tags::{tag_entries, tags_insert, tags_new, with_entry};
use crate::text::{chars_of, copy_texts, duplicate_text, string_of, text_view};
use chrono::NaiveDateTime;
use indexmap::IndexMap;
use vstd::prelude::*;

verus! {

/// `chrono::ParseError`, taken as it is: that a text could not be read is
/// all that is made of it.
#[verifier::external_type_specification]
#[verifier::external_body]
pub struct ExParseError(chrono::ParseError);

/// The moment that `text` names when read by the format `format`, in
/// seconds since the Unix epoch, as `chrono` reads it; `None` where the
/// text does not fit the format or names no moment.
pub uninterp spec fn timestamp_of(text: Seq<char>, format: Seq<char>) -> Option<i64>;

pub open spec fn stamp_view(stamp: Result<i64, chrono::ParseError>) -> Option<i64> {
    match stamp {
        Ok(t) => Some(t),
        Err(_) => None,
    }
}

/// `NaiveDateTime::parse_from_str`, and the timestamp of what it gives
/// taken as a time in UTC.
#[verifier::external_body]
fn parse_datetime(text: &str, format: &str) -> (stamp: Result<i64, chrono::ParseError>)
    ensures
        stamp_view(stamp) == timestamp_of(text@, format@),
{
    match NaiveDateTime::parse_from_str(text, format) {
        Ok(moment) => Ok(moment.and_utc().timestamp()),
        Err(error) => Err(error),
    }
}

/// `text` without the colons at its start.
pub open spec fn without_leading(text: Seq<char>) -> Seq<char>
    decreases text.len(),
{
    if text.len() > 0 && text[0] == ':' {
        without_leading(text.drop_first())
    } else {
        text
    }
}

/// `text` without the colons at its end.
pub open spec fn without_trailing(text: Seq<char>) -> Seq<char>
    decreases text.len(),
{
    if text.len() > 0 && text.last() == ':' {
        without_trailing(text.drop_last())
    } else {
        text
    }
}

/// `text` without the colons at its start and at its end.
pub open spec fn trimmed(text: Seq<char>) -> Seq<char> {
    without_trailing(without_leading(text))
}

proof fn lemma_without_leading(text: Seq<char>, start: int)
    requires
        0 <= start <= text.len(),
        forall|i: int| 0 <= i < start ==> text[i] == ':',
        start == text.len() || text[start] != ':',
    ensures
        without_leading(text) == text.subrange(start, text.len() as int),
    decreases text.len(),
{
    if start == 0 {
        assert(text.subrange(0, text.len() as int) =~= text);
    } else {
        lemma_without_leading(text.drop_first(), start - 1);
        assert(text.drop_first().subrange(start - 1, text.len() - 1) =~= text.subrange(
            start,
            text.len() as int,
        ));
    }
}

proof fn lemma_without_trailing(text: Seq<char>, end: int)
    requires
        0 <= end <= text.len(),
        forall|i: int| end <= i < text.len() ==> text[i] == ':',
        end == 0 || text[end - 1] != ':',
    ensures
        without_trailing(text) == text.subrange(0, end),
    decreases text.len(),
{
    if end == text.len() {
        assert(text.subrange(0, end) =~= text);
    } else {
        lemma_without_trailing(text.drop_last(), end);
        assert(text.drop_last().subrange(0, end) =~= text.subrange(0, end));
    }
}

/// `text` without the colons at its start and at its end.
pub fn trim_colons(text: &str) -> (out: String)
    ensures
        out@ == trimmed(text@),
{
    let chars: Vec<char> = chars_of(text);
    let mut start: usize = 0;
    while start < chars.len() && chars[start] == ':'
        invariant
            start <= chars@.len(),
            forall|i: int| 0 <= i < start ==> chars@[i] == ':',
        decreases chars@.len() - start,
    {
        start += 1;
    }
    let mut end: usize = chars.len();
    while end > start && chars[end - 1] == ':'
        invariant
            start <= end <= chars@.len(),
            forall|i: int| end <= i < chars@.len() ==> chars@[i] == ':',
        decreases end,
    {
        end -= 1;
    }
    let mut out: Vec<char> = Vec::new();
    let mut i: usize = start;
    while i < end
        invariant
            start <= i <= end <= chars@.len(),
            out@ == chars@.subrange(start as int, i as int),
        decreases end - i,
    {
        out.push(chars[i]);
        proof {
            assert(out@ =~= chars@.subrange(start as int, i + 1));
        }
        i += 1;
    }
    proof {
        lemma_without_leading(chars@, start as int);
        let rest = chars@.subrange(start as int, chars@.len() as int);
        assert forall|k: int| end - start <= k < rest.len() implies rest[k] == ':' by {
            assert(rest[k] == chars@[start + k]);
        }
        if end > start {
            assert(rest[end - start - 1] == chars@[end - 1]);
        }
        lemma_without_trailing(rest, end - start);
        assert(rest.subrange(0, end - start) =~= chars@.subrange(start as int, end as int));
    }
    string_of(&out)
}

/// The part of `text` before its first space; all of it where it has none.
pub open spec fn first_word(text: Seq<char>) -> Seq<char>
    decreases text.len(),
{
    if text.len() == 0 || text[0] == ' ' {
        Seq::empty()
    } else {
        seq![text[0]] + first_word(text.drop_first())
    }
}

proof fn lemma_first_word(text: Seq<char>, end: int)
    requires
        0 <= end <= text.len(),
        forall|i: int| 0 <= i < end ==> text[i] != ' ',
        end == text.len() || text[end] == ' ',
    ensures
        first_word(text) == text.subrange(0, end),
    decreases text.len(),
{
    if end == 0 {
        assert(text.subrange(0, 0) =~= Seq::<char>::empty());
    } else {
        lemma_first_word(text.drop_first(), end - 1);
        assert(seq![text[0]] + text.drop_first().subrange(0, end - 1) =~= text.subrange(0, end));
    }
}

/// The part of `text` before its first space.
pub fn first_word_of(text: &str) -> (word: String)
    ensures
        word@ == first_word(text@),
{
    let chars: Vec<char> = chars_of(text);
    let mut word: Vec<char> = Vec::new();
    let mut i: usize = 0;
    while i < chars.len() && chars[i] != ' '
        invariant
            i <= chars@.len(),
            forall|k: int| 0 <= k < i ==> chars@[k] != ' ',
            word@ == chars@.subrange(0, i as int),
        decreases chars@.len() - i,
    {
        word.push(chars[i]);
        proof {
            assert(word@ =~= chars@.subrange(0, i + 1));
        }
        i += 1;
    }
    proof {
        lemma_first_word(chars@, i as int);
    }
    string_of(&word)
}

/// What a page of the catalog shows of a gallery, as the texts found in it.
#[derive(Debug)]
pub struct RawGallery {
    /// The title.
    pub title: Option<String>,
    /// The title in the gallery's own language.
    pub title_jp: Option<String>,
    /// The address of the gallery that this one replaces.
    pub parent: Option<String>,
    /// The rows of the tag list: the namespace as it is written, with its
    /// colon, and the tags filed under it.
    pub tags: Vec<(Option<String>, Vec<String>)>,
    /// How often the gallery was marked as a favourite, as it is written.
    pub favorite: Option<String>,
    /// When the gallery was posted, as it is written.
    pub posted: Option<String>,
    /// The addresses of the pages that this page of the catalog lists.
    pub pages: Vec<String>,
    /// The address of the page of the catalog that follows.
    pub next_page: Option<String>,
}

pub struct RawView {
    pub title: Option<Seq<char>>,
    pub title_jp: Option<Seq<char>>,
    pub parent: Option<Seq<char>>,
    pub tags: Seq<(Option<Seq<char>>, Seq<Seq<char>>)>,
    pub favorite: Option<Seq<char>>,
    pub posted: Option<Seq<char>>,
    pub pages: Seq<Seq<char>>,
    pub next_page: Option<Seq<char>>,
}

pub open spec fn row_views(rows: Seq<(Option<String>, Vec<String>)>) -> Seq<
    (Option<Seq<char>>, Seq<Seq<char>>),
> {
    rows.map_values(|r: (Option<String>, Vec<String>)| (text_view(r.0), r.1.deep_view()))
}

impl View for RawGallery {
    type V = RawView;

    open spec fn view(&self) -> RawView {
        RawView {
            title: text_view(self.title),
            title_jp: text_view(self.title_jp),
            parent: text_view(self.parent),
            tags: row_views(self.tags@),
            favorite: text_view(self.favorite),
            posted: text_view(self.posted),
            pages: self.pages.deep_view(),
            next_page: text_view(self.next_page),
        }
    }
}

/// Why the pages of the catalog did not give a gallery.
#[derive(Clone, Copy, Debug, PartialEq, Eq, Structural)]
pub enum DetailError {
    /// The page shows no title.
    NoTitle,
    /// A row of the tag list names no namespace.
    NoNamespace,
    /// The page does not say how often the gallery is a favourite.
    NoFavorite,
    /// What the page says of favourites does not begin with a number.
    BadFavorite,
    /// The page does not say when the gallery was posted.
    NoPosted,
    /// What the page says of the posting is no date and time.
    BadPosted,
    /// A page of the gallery has an address that names no page.
    BadPage,
}

/// The format in which the catalog writes when a gallery was posted.
pub open spec fn posted_format() -> Seq<char> {
    "%Y-%m-%d %H:%M"@
}

/// The tag groups that the rows of a tag list make: each row is filed
/// under its namespace without its colons, a later row of a namespace in
/// place of the earlier one. `None` where a row names no namespace.
pub open spec fn filed(rows: Seq<(Option<Seq<char>>, Seq<Seq<char>>)>) -> Option<
    Seq<(Seq<char>, Seq<Seq<char>>)>,
>
    decreases rows.len(),
{
    if rows.len() == 0 {
        Some(Seq::empty())
    } else {
        match (filed(rows.drop_last()), rows.last().0) {
            (Some(before), Some(namespace)) => Some(
                with_entry(before, trimmed(namespace), rows.last().1),
            ),
            _ => None,
        }
    }
}

proof fn lemma_filed_none(rows: Seq<(Option<Seq<char>>, Seq<Seq<char>>)>, i: int)
    requires
        0 <= i < rows.len(),
        rows[i].0 is None,
    ensures
        filed(rows) is None,
    decreases rows.len(),
{
    if i < rows.len() - 1 {
        lemma_filed_none(rows.drop_last(), i);
    }
}

/// A gallery whose pages are still being collected.
#[derive(Debug)]
pub struct GalleryDraft {
    url: EhGalleryUrl,
    title: String,
    title_jp: Option<String>,
    parent: Option<EhGalleryUrl>,
    tags: IndexMap<String, Vec<String>>,
    favorite: i32,
    posted: i64,
    pages: Vec<String>,
    next_page: Option<String>,
}

pub struct DraftView {
    pub url: GalleryUrlView,
    pub title: Seq<char>,
    pub title_jp: Option<Seq<char>>,
    pub parent: Option<GalleryUrlView>,
    pub tags: Seq<(Seq<char>, Seq<Seq<char>>)>,
    pub favorite: i32,
    pub posted: i64,
    /// The addresses of the pages collected so far.
    pub pages: Seq<Seq<char>>,
    /// The address of the page of the catalog to fetch next.
    pub next_page: Option<Seq<char>>,
}

impl View for GalleryDraft {
    type V = DraftView;

    closed spec fn view(&self) -> DraftView {
        DraftView {
            url: self.url@,
            title: self.title@,
            title_jp: text_view(self.title_jp),
            parent: url_view(self.parent),
            tags: tag_entries(self.tags),
            favorite: self.favorite,
            posted: self.posted,
            pages: self.pages.deep_view(),
            next_page: text_view(self.next_page),
        }
    }
}

/// The draft that the first page of a gallery gives.
pub open spec fn draft_of(url: GalleryUrlView, raw: RawView) -> Result<DraftView, DetailError> {
    if raw.title is None {
        Err(DetailError::NoTitle)
    } else if filed(raw.tags) is None {
        Err(DetailError::NoNamespace)
    } else if raw.favorite is None {
        Err(DetailError::NoFavorite)
    } else if parsed_i32(first_word(raw.favorite.unwrap())) is None {
        Err(DetailError::BadFavorite)
    } else if raw.posted is None {
        Err(DetailError::NoPosted)
    } else if timestamp_of(raw.posted.unwrap(), posted_format()) is None {
        Err(DetailError::BadPosted)
    } else {
        Ok(
            DraftView {
                url,
                title: raw.title.unwrap(),
                title_jp: raw.title_jp,
                parent: match raw.parent {
                    Some(address) => gallery_in(address),
                    None => None,
                },
                tags: filed(raw.tags).unwrap(),
                favorite: parsed_i32(first_word(raw.favorite.unwrap())).unwrap(),
                posted: timestamp_of(raw.posted.unwrap(), posted_format()).unwrap(),
                pages: raw.pages,
                next_page: raw.next_page,
            },
        )
    }
}

pub open spec fn draft_view(draft: Result<GalleryDraft, DetailError>) -> Result<
    DraftView,
    DetailError,
> {
    match draft {
        Ok(d) => Ok(d@),
        Err(e) => Err(e),
    }
}

pub open spec fn gallery_view(gallery: Result<EhGallery, DetailError>) -> Result<
    GalleryView,
    DetailError,
> {
    match gallery {
        Ok(g) => Ok(g@),
        Err(e) => Err(e),
    }
}

fn file_rows(rows: &Vec<(Option<String>, Vec<String>)>) -> (tags: Option<IndexMap<String, Vec<String>>>)
    ensures
        match tags {
            Some(t) => filed(row_views(rows@)) == Some(tag_entries(t)),
            None => filed(row_views(rows@)) is None,
        },
{
    let ghost all = row_views(rows@);
    let mut tags: IndexMap<String, Vec<String>> = tags_new();
    let mut i: usize = 0;
    assert(all.take(0) =~= Seq::<(Option<Seq<char>>, Seq<Seq<char>>)>::empty());
    while i < rows.len()
        invariant
            i <= rows@.len(),
            all == row_views(rows@),
            filed(all.take(i as int)) == Some(tag_entries(tags)),
        decreases rows@.len() - i,
    {
        proof {
            assert(all.take(i + 1).drop_last() =~= all.take(i as int));
            assert(all.take(i + 1).last() == all[i as int]);
            assert(all[i as int] == (text_view(rows@[i as int].0), rows@[i as int].1.deep_view()));
        }
        match &rows[i].0 {
            Some(namespace) => {
                tags_insert(&mut tags, trim_colons(namespace.as_str()), copy_texts(&rows[i].1));
            },
            None => {
                proof {
                    lemma_filed_none(all, i as int);
                }
                return None;
            },
        }
        i += 1;
    }
    proof {
        assert(all.take(rows@.len() as int) =~= all);
    }
    Some(tags)
}

/// Reads the first page of the gallery at `url` into a draft.
pub fn read_gallery(url: &EhGalleryUrl, raw: &RawGallery) -> (draft: Result<GalleryDraft, DetailError>)
    ensures
        draft_view(draft) == draft_of(url@, raw@),
{
    let title: String = match &raw.title {
        Some(t) => t.clone(),
        None => {
            return Err(DetailError::NoTitle);
        },
    };
    let tags: IndexMap<String, Vec<String>> = match file_rows(&raw.tags) {
        Some(t) => t,
        None => {
            return Err(DetailError::NoNamespace);
        },
    };
    let favorite: i32 = match &raw.favorite {
        Some(text) => match parse_i32(first_word_of(text.as_str()).as_str()) {
            Some(n) => n,
            None => {
                return Err(DetailError::BadFavorite);
            },
        },
        None => {
            return Err(DetailError::NoFavorite);
        },
    };
    let posted: i64 = match &raw.posted {
        Some(text) => match parse_datetime(text.as_str(), "%Y-%m-%d %H:%M") {
            Ok(stamp) => stamp,
            Err(_) => {
                return Err(DetailError::BadPosted);
            },
        },
        None => {
            return Err(DetailError::NoPosted);
        },
    };
    let parent: Option<EhGalleryUrl> = match &raw.parent {
        Some(address) => EhGalleryUrl::parse(address.as_str()),
        None => None,
    };
    Ok(
        GalleryDraft {
            url: url.duplicate(),
            title,
            title_jp: duplicate_text(&raw.title_jp),
            parent,
            tags,
            favorite,
            posted,
            pages: copy_texts(&raw.pages),
            next_page: duplicate_text(&raw.next_page),
        },
    )
}

/// The gallery that a draft makes once its pages are collected.
pub open spec fn finished(draft: DraftView) -> Result<GalleryView, DetailError> {
    match pages_in(draft.pages) {
        Some(pages) => Ok(
            GalleryView {
                url: draft.url,
                title: draft.title,
                title_jp: draft.title_jp,
                parent: draft.parent,
                tags: draft.tags,
                favorite: draft.favorite,
                pages,
                posted: draft.posted,
                cover: draft.url.cover,
            },
        ),
        None => Err(DetailError::BadPage),
    }
}

impl GalleryDraft {
    /// The address of the page of the catalog to fetch next, while there
    /// is one.
    pub fn next_page(&self) -> (address: &Option<String>)
        ensures
            text_view(*address) == self@.next_page,
    {
        &self.next_page
    }

    /// How many pages are collected.
    pub fn page_count(&self) -> (n: usize)
        ensures
            n == self@.pages.len(),
    {
        proof {
            assert(self.pages.deep_view().len() == self.pages@.len());
        }
        self.pages.len()
    }

    /// Adds what a further page of the catalog holds: the pages it lists
    /// behind those collected, and the page that follows it in place of
    /// itself.
    pub fn extend(&mut self, pages: &Vec<String>, next_page: Option<String>)
        ensures
            final(self)@ == (DraftView {
                pages: old(self)@.pages + pages.deep_view(),
                next_page: text_view(next_page),
                ..old(self)@
            }),
    {
        let ghost added = pages.deep_view();
        let ghost before = self.pages.deep_view();
        let mut i: usize = 0;
        assert(before + added.take(0) =~= before);
        while i < pages.len()
            invariant
                i <= pages@.len(),
                added == pages.deep_view(),
                self.pages.deep_view() == before + added.take(i as int),
                self.url == old(self).url,
                self.title == old(self).title,
                self.title_jp == old(self).title_jp,
                self.parent == old(self).parent,
                self.tags == old(self).tags,
                self.favorite == old(self).favorite,
                self.posted == old(self).posted,
            decreases pages@.len() - i,
        {
            let ghost held = self.pages.deep_view();
            self.pages.push(pages[i].clone());
            proof {
                assert(self.pages.deep_view() =~= held.push(pages@[i as int]@));
                assert(self.pages.deep_view() =~= before + added.take(i + 1));
            }
            i += 1;
        }
        proof {
            assert(added.take(added.len() as int) =~= added);
        }
        self.next_page = next_page;
    }

    /// The gallery, once every page of the catalog is read.
    pub fn finish(self) -> (gallery: Result<EhGallery, DetailError>)
        ensures
            gallery_view(gallery) == finished(self@),
    {
        match page_list(&self.pages) {
            Some(pages) => {
                let cover: usize = self.url.cover;
                Ok(
                    EhGallery {
                        url: self.url,
                        title: self.title,
                        title_jp: self.title_jp,
                        parent: self.parent,
                        tags: self.tags,
                        favorite: self.favorite,
                        pages,
                        posted: self.posted,
                        cover,
                    },
                )
            },
            None => Err(DetailError::BadPage),
        }
    }
}

} // verus!

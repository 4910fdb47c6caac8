//! Picking the texts out of a page of the catalog.
//!
//! A page is HTML; what is wanted of it is named by CSS selectors. The
//! search itself is left to the `scraper` crate. What is decided here is
//! which of the things found count: the first text of the first element
//! for a single value, every element that has a text for a list.

use crate::detail::{
    draft_of, draft_view, read_gallery, row_views, DetailError, DraftView, GalleryDraft,
    RawGallery, RawView,
};
use crate::ehentai::{
    gallery_list, galleries_in, image_view, resolve_image, resolved_image, urls_view,
};
use crate::gallery::EhGalleryUrl;
use scraper::{Html, Selector};
use vstd::prelude::*;

verus! {

/// For each element that the selector `inner` finds inside the element
/// number `index`, counted from 0, of those that the selector `outer`
/// finds in the document `html`, in the order of the document: the first
/// piece of text in it, where it holds any, as `scraper` finds them.
/// `None` for a selector that cannot be read, and where `outer` finds no
/// more than `index` elements.
pub uninterp spec fn texts_within(html: Seq<char>, outer: Seq<char>, index: usize, inner: Seq<char>) -> Option<
    Seq<Option<Seq<char>>>,
>;

/// The same for the attribute `attribute` of each element, where it has one.
pub uninterp spec fn attributes_within(
    html: Seq<char>,
    outer: Seq<char>,
    index: usize,
    inner: Seq<char>,
    attribute: Seq<char>,
) -> Option<Seq<Option<Seq<char>>>>;

/// `Selector::parse`, `Html::parse_document`, `Html::select`,
/// `ElementRef::select` and `ElementRef::text`: the first text of each
/// element found inside one of the elements found.
#[verifier::external_body]
fn select_texts(html: &str, outer: &str, index: usize, inner: &str) -> (found: Option<
    Vec<Option<String>>,
>)
    ensures
        found.deep_view() == texts_within(html@, outer@, index, inner@),
{
    let outer = Selector::parse(outer).ok()?;
    let inner = Selector::parse(inner).ok()?;
    let document = Html::parse_document(html);
    let scope = document.select(&outer).nth(index)?;
    Some(scope.select(&inner).map(|e| e.text().next().map(|t| t.to_string())).collect())
}

/// `Selector::parse`, `Html::parse_document`, `Html::select`,
/// `ElementRef::select` and `ElementRef::attr`: the attribute of each
/// element found inside one of the elements found.
#[verifier::external_body]
fn select_attributes(html: &str, outer: &str, index: usize, inner: &str, attribute: &str) -> (found:
    Option<Vec<Option<String>>>)
    ensures
        found.deep_view() == attributes_within(html@, outer@, index, inner@, attribute@),
{
    let outer = Selector::parse(outer).ok()?;
    let inner = Selector::parse(inner).ok()?;
    let document = Html::parse_document(html);
    let scope = document.select(&outer).nth(index)?;
    Some(scope.select(&inner).map(|e| e.attr(attribute).map(|a| a.to_string())).collect())
}

/// For each element that the selector finds in the document: its first
/// piece of text. The document is searched from its root element.
pub open spec fn first_texts_of(html: Seq<char>, selector: Seq<char>) -> Option<
    Seq<Option<Seq<char>>>,
> {
    texts_within(html, "html"@, 0, selector)
}

/// For each element that the selector finds in the document: its
/// attribute `attribute`.
pub open spec fn attributes_of(html: Seq<char>, selector: Seq<char>, attribute: Seq<char>) -> Option<
    Seq<Option<Seq<char>>>,
> {
    attributes_within(html, "html"@, 0, selector, attribute)
}

fn first_texts(html: &str, selector: &str) -> (found: Option<Vec<Option<String>>>)
    ensures
        found.deep_view() == first_texts_of(html@, selector@),
{
    select_texts(html, "html", 0, selector)
}

fn attributes(html: &str, selector: &str, attribute: &str) -> (found: Option<Vec<Option<String>>>)
    ensures
        found.deep_view() == attributes_of(html@, selector@, attribute@),
{
    select_attributes(html, "html", 0, selector, attribute)
}

/// What the first of the elements found holds.
pub open spec fn first_of(found: Option<Seq<Option<Seq<char>>>>) -> Option<Seq<char>> {
    match found {
        Some(list) => if list.len() > 0 {
            list[0]
        } else {
            None
        },
        None => None,
    }
}

/// What the elements found hold, without those that hold nothing.
pub open spec fn present(list: Seq<Option<Seq<char>>>) -> Seq<Seq<char>>
    decreases list.len(),
{
    if list.len() == 0 {
        Seq::empty()
    } else {
        match list.last() {
            Some(text) => present(list.drop_last()).push(text),
            None => present(list.drop_last()),
        }
    }
}

/// What the elements found hold, without those that hold nothing; nothing
/// at all where the search could not be made.
pub open spec fn all_of(found: Option<Seq<Option<Seq<char>>>>) -> Seq<Seq<char>> {
    match found {
        Some(list) => present(list),
        None => Seq::empty(),
    }
}

/// How many elements were found.
pub open spec fn count_of(found: Option<Seq<Option<Seq<char>>>>) -> nat {
    match found {
        Some(list) => list.len(),
        None => 0,
    }
}

/// What the first of the elements found holds.
pub fn take_first(found: &Option<Vec<Option<String>>>) -> (first: Option<String>)
    ensures
        first.deep_view() == first_of(found.deep_view()),
{
    match found {
        Some(list) => if list.len() > 0 {
            assert(found.deep_view().unwrap()[0] == list@[0].deep_view());
            duplicate_option(&list[0])
        } else {
            None
        },
        None => None,
    }
}

fn duplicate_option(text: &Option<String>) -> (copy: Option<String>)
    ensures
        copy.deep_view() == text.deep_view(),
{
    match text {
        Some(t) => Some(t.clone()),
        None => None,
    }
}

/// What the elements found hold, without those that hold nothing.
pub fn take_all(found: &Option<Vec<Option<String>>>) -> (all: Vec<String>)
    ensures
        all.deep_view() == all_of(found.deep_view()),
{
    let mut all: Vec<String> = Vec::new();
    match found {
        Some(list) => {
            let ghost views = found.deep_view().unwrap();
            let mut i: usize = 0;
            assert(views.take(0) =~= Seq::<Option<Seq<char>>>::empty());
            while i < list.len()
                invariant
                    i <= list@.len(),
                    views == list.deep_view(),
                    all.deep_view() == present(views.take(i as int)),
                decreases list@.len() - i,
            {
                proof {
                    assert(views.take(i + 1).drop_last() =~= views.take(i as int));
                    assert(views.take(i + 1).last() == list@[i as int].deep_view());
                }
                match &list[i] {
                    Some(text) => {
                        let ghost before = all.deep_view();
                        all.push(text.clone());
                        assert(all.deep_view() =~= before.push(text@));
                    },
                    None => {},
                }
                i += 1;
            }
            proof {
                assert(views.take(list@.len() as int) =~= views);
            }
        },
        None => {
            assert(all.deep_view() =~= Seq::<Seq<char>>::empty());
        },
    }
    all
}

/// The first `count` rows of the tag list of a page: for each the
/// namespace, as the first cell names it, and the tags, as the links of
/// the row name them.
pub open spec fn tag_rows(html: Seq<char>, count: nat) -> Seq<(Option<Seq<char>>, Seq<Seq<char>>)> {
    Seq::new(
        count,
        |k: int|
            (
                first_of(texts_within(html, "div#taglist tr"@, k as usize, "td.tc"@)),
                all_of(texts_within(html, "div#taglist tr"@, k as usize, "td div a"@)),
            ),
    )
}

/// What a page of the catalog shows of a gallery.
pub open spec fn raw_gallery_of(html: Seq<char>) -> RawView {
    RawView {
        title: first_of(first_texts_of(html, "h1#gn"@)),
        title_jp: first_of(first_texts_of(html, "h1#gj"@)),
        parent: first_of(attributes_of(html, "td.gdt2 a"@, "href"@)),
        tags: tag_rows(html, count_of(first_texts_of(html, "div#taglist tr"@))),
        favorite: first_of(first_texts_of(html, "#favcount"@)),
        posted: if all_of(first_texts_of(html, "td.gdt2"@)).len() > 0 {
            Some(all_of(first_texts_of(html, "td.gdt2"@))[0])
        } else {
            None
        },
        pages: all_of(attributes_of(html, "div.gdtl a"@, "href"@)),
        next_page: first_of(attributes_of(html, "table.ptt td:last-child a"@, "href"@)),
    }
}

/// Picks out of a page of the catalog what it shows of a gallery.
pub fn raw_gallery(html: &str) -> (raw: RawGallery)
    ensures
        raw@ == raw_gallery_of(html@),
{
    let rows: usize = match first_texts(html, "div#taglist tr") {
        Some(list) => list.len(),
        None => 0,
    };
    let mut tags: Vec<(Option<String>, Vec<String>)> = Vec::new();
    let mut k: usize = 0;
    while k < rows
        invariant
            k <= rows,
            rows == count_of(first_texts_of(html@, "div#taglist tr"@)),
            row_views(tags@) == tag_rows(html@, k as nat),
        decreases rows - k,
    {
        let namespace = take_first(&select_texts(html, "div#taglist tr", k, "td.tc"));
        let names = take_all(&select_texts(html, "div#taglist tr", k, "td div a"));
        let ghost before = row_views(tags@);
        tags.push((namespace, names));
        proof {
            assert(row_views(tags@) =~= before.push((namespace.deep_view(), names.deep_view())));
            assert(row_views(tags@) =~= tag_rows(html@, (k + 1) as nat));
        }
        k += 1;
    }
    let posted_cells: Vec<String> = take_all(&first_texts(html, "td.gdt2"));
    let posted: Option<String> = if posted_cells.len() > 0 {
        Some(posted_cells[0].clone())
    } else {
        None
    };
    RawGallery {
        title: take_first(&first_texts(html, "h1#gn")),
        title_jp: take_first(&first_texts(html, "h1#gj")),
        parent: take_first(&attributes(html, "td.gdt2 a", "href")),
        tags,
        favorite: take_first(&first_texts(html, "#favcount")),
        posted,
        pages: take_all(&attributes(html, "div.gdtl a", "href")),
        next_page: take_first(&attributes(html, "table.ptt td:last-child a", "href")),
    }
}

/// The addresses that a page of the catalog's list links to: every link
/// in a name cell of the list that leads somewhere.
pub fn listed(html: &str) -> (addresses: Vec<String>)
    ensures
        addresses.deep_view() == all_of(
            attributes_of(html@, "table.itg.gltc tr td.gl3c.glname a"@, "href"@),
        ),
{
    take_all(&attributes(html, "table.itg.gltc tr td.gl3c.glname a", "href"))
}

/// The address that the page of an image shows the image from.
pub fn image_source(html: &str) -> (src: Option<String>)
    ensures
        src.deep_view() == first_of(attributes_of(html@, "img#img"@, "src"@)),
{
    take_first(&attributes(html, "img#img", "src"))
}

/// The galleries that a page of the catalog's list shows, in its order;
/// `None` where a link of the list leads to something that is no gallery.
pub fn search_skip(html: &str) -> (galleries: Option<Vec<EhGalleryUrl>>)
    ensures
        urls_view(galleries) == galleries_in(
            all_of(attributes_of(html@, "table.itg.gltc tr td.gl3c.glname a"@, "href"@)),
        ),
{
    gallery_list(&listed(html))
}

/// Reads the first page of the gallery at `url` into a draft.
pub fn get_gallery(url: &EhGalleryUrl, html: &str) -> (draft: Result<GalleryDraft, DetailError>)
    ensures
        draft_view(draft) == draft_of(url@, raw_gallery_of(html@)),
{
    read_gallery(url, &raw_gallery(html))
}

/// Adds to a draft what a further page of the gallery holds: the pages it
/// lists, and the page that follows it.
pub fn add_page(draft: &mut GalleryDraft, html: &str)
    ensures
        final(draft)@ == (DraftView {
            pages: old(draft)@.pages + raw_gallery_of(html@).pages,
            next_page: raw_gallery_of(html@).next_page,
            ..old(draft)@
        }),
{
    let raw = raw_gallery(html);
    draft.extend(&raw.pages, raw.next_page);
}

/// Where the image of a page is and what its index at the catalog is;
/// `None` where the page shows no image or the address of the image names
/// no file index.
pub fn get_image_url(html: &str) -> (image: Option<(u32, String)>)
    ensures
        image_view(image) == resolved_image(first_of(attributes_of(html@, "img#img"@, "src"@))),
{
    resolve_image(image_source(html))
}

} // verus!

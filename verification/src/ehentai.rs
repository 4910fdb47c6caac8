//! Reading what the catalog sends: numbers, addresses, and the detail of
//! a gallery, which the catalog spreads over several pages.
//!
//! The pages are fetched and searched by the driver. What it finds in a
//! page it hands over as texts ([`RawGallery`]); what the texts mean is
//! decided here.

use crate::gallery::{
    page_views, parent_view, url_views, EhGalleryUrl, EhPageUrl, GalleryUrlView, PageView,
};
use crate::text::{chars_of, decimal, decimal_of, string_of, text_view};
use regex::Regex;
use vstd::prelude::*;
use vstd::string::StringExecFns;

verus! {

/// What the group named `group` holds in the leftmost match of the regular
/// expression `pattern` in `haystack`, as the `regex` crate finds it. The
/// outer `None` stands for a pattern that does not compile, the inner one
/// for a haystack without a match and for a group that took no part in it.
pub uninterp spec fn regex_capture(pattern: Seq<char>, group: Seq<char>, haystack: Seq<char>) -> Option<
    Option<Seq<char>>,
>;

/// `Regex::new`, `Regex::captures` and `Captures::name`: compiles the
/// pattern, searches the haystack for its leftmost match, and hands out the
/// text of the named group.
#[verifier::external_body]
fn capture_named(pattern: &str, group: &str, haystack: &str) -> (found: Option<Option<String>>)
    ensures
        capture_view(found) == regex_capture(pattern@, group@, haystack@),
{
    match Regex::new(pattern) {
        Ok(re) => match re.captures(haystack) {
            Some(captures) => match captures.name(group) {
                Some(m) => Some(Some(m.as_str().to_string())),
                None => Some(None),
            },
            None => Some(None),
        },
        Err(_) => None,
    }
}

pub open spec fn capture_view(found: Option<Option<String>>) -> Option<Option<Seq<char>>> {
    match found {
        Some(Some(text)) => Some(Some(text@)),
        Some(None) => Some(None),
        None => None,
    }
}

pub open spec fn is_digit(c: char) -> bool {
    '0' <= c <= '9'
}

/// The number that a run of decimal digits writes.
pub open spec fn number_of(digits: Seq<char>) -> int
    decreases digits.len(),
{
    if digits.len() == 0 {
        0
    } else {
        number_of(digits.drop_last()) * 10 + (digits.last() as int - '0' as int)
    }
}

pub open spec fn all_digits(text: Seq<char>) -> bool {
    forall|i: int| 0 <= i < text.len() ==> is_digit(#[trigger] text[i])
}

/// The digits of a number text: the text without a plus sign in front.
pub open spec fn unsigned_part(text: Seq<char>) -> Seq<char> {
    if text.len() > 0 && text[0] == '+' {
        text.drop_first()
    } else {
        text
    }
}

/// The number that `text` writes in decimal, where it writes one that a
/// `u32` holds: an optional plus sign, then one digit or more, and nothing
/// else.
pub open spec fn parsed_u32(text: Seq<char>) -> Option<u32> {
    let digits = unsigned_part(text);
    if digits.len() > 0 && all_digits(digits) && number_of(digits) <= u32::MAX {
        Some(number_of(digits) as u32)
    } else {
        None
    }
}

proof fn lemma_number_grows(digits: Seq<char>, n: int)
    requires
        all_digits(digits),
        0 <= n <= digits.len(),
    ensures
        0 <= number_of(digits.take(n)) <= number_of(digits),
    decreases digits.len() - n,
{
    if n == digits.len() {
        assert(digits.take(n) =~= digits);
        lemma_number_nonnegative(digits);
    } else {
        lemma_number_grows(digits, n + 1);
        assert(digits.take(n + 1).drop_last() =~= digits.take(n));
        assert(is_digit(digits[n]));
        assert(digits.take(n + 1).last() == digits[n]);
        lemma_number_nonnegative(digits.take(n));
    }
}

proof fn lemma_number_nonnegative(digits: Seq<char>)
    requires
        all_digits(digits),
    ensures
        0 <= number_of(digits),
    decreases digits.len(),
{
    if digits.len() > 0 {
        assert(is_digit(digits[digits.len() - 1]));
        assert forall|i: int| 0 <= i < digits.drop_last().len() implies is_digit(
            #[trigger] digits.drop_last()[i],
        ) by {
            assert(is_digit(digits[i]));
        }
        lemma_number_nonnegative(digits.drop_last());
    }
}

/// The number that `text` writes in decimal, where a `u32` holds it.
pub fn parse_u32(text: &str) -> (value: Option<u32>)
    ensures
        value == parsed_u32(text@),
{
    let chars: Vec<char> = chars_of(text);
    let start: usize = if chars.len() > 0 && chars[0] == '+' {
        1
    } else {
        0
    };
    let ghost digits = unsigned_part(text@);
    proof {
        assert(digits =~= chars@.subrange(start as int, chars@.len() as int));
    }
    if start == chars.len() {
        return None;
    }
    let mut value: u64 = 0;
    let mut i: usize = start;
    while i < chars.len()
        invariant
            start <= i <= chars@.len(),
            digits == unsigned_part(text@),
            digits == chars@.subrange(start as int, chars@.len() as int),
            all_digits(digits.take(i - start)),
            value == number_of(digits.take(i - start)),
            value <= u32::MAX,
        decreases chars@.len() - i,
    {
        let c: char = chars[i];
        assert(digits[i - start] == c);
        if c < '0' || c > '9' {
            assert(!is_digit(digits[i - start]));
            return None;
        }
        proof {
            let next = digits.take(i - start + 1);
            assert(next.drop_last() =~= digits.take(i - start));
            assert(next.last() == c);
            assert forall|k: int| 0 <= k < next.len() implies is_digit(#[trigger] next[k]) by {
                if k < i - start {
                    assert(digits.take(i - start)[k] == next[k]);
                }
            }
        }
        let d: u64 = (c as u32 - '0' as u32) as u64;
        value = value * 10 + d;
        if value > u32::MAX as u64 {
            proof {
                if all_digits(digits) {
                    lemma_number_grows(digits, i - start + 1);
                }
            }
            return None;
        }
        i += 1;
    }
    proof {
        assert(digits.take(i - start) =~= digits);
    }
    Some(value as u32)
}

/// The text that the file index of an image is searched with: the digits
/// behind `fileindex=`.
pub open spec fn fileindex_pattern() -> Seq<char> {
    "fileindex=(?P<fileindex>\\d+)"@
}

/// The file index that a capture of the search gives: the number that the
/// captured digits write, where a `u32` holds it.
pub open spec fn fileindex_of(found: Option<Option<Seq<char>>>) -> Option<u32> {
    match found {
        Some(Some(digits)) => parsed_u32(digits),
        _ => None,
    }
}

/// The file index that a capture of the search gives.
pub fn fileindex_from_capture(found: &Option<Option<String>>) -> (fileindex: Option<u32>)
    ensures
        fileindex == fileindex_of(capture_view(*found)),
{
    match found {
        Some(Some(digits)) => parse_u32(digits.as_str()),
        _ => None,
    }
}

/// The index of the file that the address of an image names in its
/// `fileindex` parameter.
pub fn extract_fileindex(url: &str) -> (fileindex: Option<u32>)
    ensures
        fileindex == fileindex_of(regex_capture(fileindex_pattern(), "fileindex"@, url@)),
{
    let found = capture_named("fileindex=(?P<fileindex>\\d+)", "fileindex", url);
    fileindex_from_capture(&found)
}

/// The number that `text` writes in decimal, where it writes one that an
/// `i32` holds: an optional sign, then one digit or more, and nothing else.
pub open spec fn parsed_i32(text: Seq<char>) -> Option<i32> {
    let negative = text.len() > 0 && text[0] == '-';
    let signed = negative || (text.len() > 0 && text[0] == '+');
    let digits = if signed {
        text.drop_first()
    } else {
        text
    };
    let value = if negative {
        -number_of(digits)
    } else {
        number_of(digits)
    };
    if digits.len() > 0 && all_digits(digits) && i32::MIN <= value <= i32::MAX {
        Some(value as i32)
    } else {
        None
    }
}

/// The number that `text` writes in decimal, where an `i32` holds it.
pub fn parse_i32(text: &str) -> (value: Option<i32>)
    ensures
        value == parsed_i32(text@),
{
    let chars: Vec<char> = chars_of(text);
    let negative: bool = chars.len() > 0 && chars[0] == '-';
    let start: usize = if chars.len() > 0 && (chars[0] == '-' || chars[0] == '+') {
        1
    } else {
        0
    };
    let ghost digits = chars@.subrange(start as int, chars@.len() as int);
    proof {
        if start == 1 {
            assert(digits =~= text@.drop_first());
        } else {
            assert(digits =~= text@);
        }
    }
    if start == chars.len() {
        return None;
    }
    let mut value: i64 = 0;
    let mut i: usize = start;
    while i < chars.len()
        invariant
            start <= i <= chars@.len(),
            digits == chars@.subrange(start as int, chars@.len() as int),
            digits == if text@.len() > 0 && (text@[0] == '-' || text@[0] == '+') {
                text@.drop_first()
            } else {
                text@
            },
            all_digits(digits.take(i - start)),
            value == number_of(digits.take(i - start)),
            0 <= value <= 2147483648,
        decreases chars@.len() - i,
    {
        let c: char = chars[i];
        assert(digits[i - start] == c);
        if c < '0' || c > '9' {
            assert(!is_digit(digits[i - start]));
            return None;
        }
        proof {
            let next = digits.take(i - start + 1);
            assert(next.drop_last() =~= digits.take(i - start));
            assert(next.last() == c);
            assert forall|k: int| 0 <= k < next.len() implies is_digit(#[trigger] next[k]) by {
                if k < i - start {
                    assert(digits.take(i - start)[k] == next[k]);
                }
            }
        }
        let d: i64 = (c as u32 - '0' as u32) as i64;
        value = value * 10 + d;
        if value > 2147483648 {
            proof {
                if all_digits(digits) {
                    lemma_number_grows(digits, i - start + 1);
                }
            }
            return None;
        }
        i += 1;
    }
    proof {
        assert(digits.take(i - start) =~= digits);
    }
    if negative {
        Some((-value) as i32)
    } else if value <= 2147483647 {
        Some(value as i32)
    } else {
        None
    }
}

/// The pattern that the address of a gallery is searched with: `/g/`, the
/// id in digits, a slash, and the token up to the next slash, question
/// mark or hash sign.
pub open spec fn gallery_pattern() -> Seq<char> {
    "/g/(?P<id>\\d+)/(?P<token>[^/?#]+)"@
}

/// The pattern that the address of a page is searched with: `/s/`, the
/// hash of the image, a slash, the id of the gallery, a hyphen and the
/// position of the page.
pub open spec fn page_pattern() -> Seq<char> {
    "/s/(?P<hash>[^/?#]+)/(?P<gallery>\\d+)-(?P<page>\\d+)"@
}

/// The gallery that the captures of a search name.
pub open spec fn gallery_of(id: Option<Option<Seq<char>>>, token: Option<Option<Seq<char>>>) -> Option<
    GalleryUrlView,
> {
    match (id, token) {
        (Some(Some(id)), Some(Some(token))) => match parsed_i32(id) {
            Some(id) => Some(GalleryUrlView { id, token, cover: 0 }),
            None => None,
        },
        _ => None,
    }
}

/// The page that the captures of a search name.
pub open spec fn page_of(
    hash: Option<Option<Seq<char>>>,
    gallery: Option<Option<Seq<char>>>,
    page: Option<Option<Seq<char>>>,
) -> Option<PageView> {
    match (hash, gallery, page) {
        (Some(Some(hash)), Some(Some(gallery)), Some(Some(page))) => match (
            parsed_i32(gallery),
            parsed_i32(page),
        ) {
            (Some(gallery_id), Some(page)) => Some(PageView { hash, gallery_id, page }),
            _ => None,
        },
        _ => None,
    }
}

pub open spec fn url_view(url: Option<EhGalleryUrl>) -> Option<GalleryUrlView> {
    parent_view(url)
}

pub open spec fn page_view(page: Option<EhPageUrl>) -> Option<PageView> {
    match page {
        Some(p) => Some(p@),
        None => None,
    }
}

/// The gallery that the captures of a search name.
pub fn gallery_from_captures(id: &Option<Option<String>>, token: &Option<Option<String>>) -> (url:
    Option<EhGalleryUrl>)
    ensures
        url_view(url) == gallery_of(capture_view(*id), capture_view(*token)),
{
    match (id, token) {
        (Some(Some(id)), Some(Some(token))) => match parse_i32(id.as_str()) {
            Some(id) => Some(EhGalleryUrl::new(id, token.clone(), 0)),
            None => None,
        },
        _ => None,
    }
}

/// The page that the captures of a search name.
pub fn page_from_captures(
    hash: &Option<Option<String>>,
    gallery: &Option<Option<String>>,
    page: &Option<Option<String>>,
) -> (url: Option<EhPageUrl>)
    ensures
        page_view(url) == page_of(capture_view(*hash), capture_view(*gallery), capture_view(*page)),
{
    match (hash, gallery, page) {
        (Some(Some(hash)), Some(Some(gallery)), Some(Some(page))) => match (
            parse_i32(gallery.as_str()),
            parse_i32(page.as_str()),
        ) {
            (Some(gallery_id), Some(page)) => Some(EhPageUrl::new(hash.clone(), gallery_id, page)),
            _ => None,
        },
        _ => None,
    }
}

/// The gallery that an address names.
pub open spec fn gallery_in(text: Seq<char>) -> Option<GalleryUrlView> {
    gallery_of(
        regex_capture(gallery_pattern(), "id"@, text),
        regex_capture(gallery_pattern(), "token"@, text),
    )
}

/// The page that an address names.
pub open spec fn page_in(text: Seq<char>) -> Option<PageView> {
    page_of(
        regex_capture(page_pattern(), "hash"@, text),
        regex_capture(page_pattern(), "gallery"@, text),
        regex_capture(page_pattern(), "page"@, text),
    )
}

/// The address of a page at the catalog.
pub open spec fn page_address(page: PageView) -> Seq<char> {
    "https://exhentai.org/s/"@ + page.hash + "/"@ + decimal(page.gallery_id as int) + "-"@
        + decimal(page.page as int)
}

impl EhGalleryUrl {
    /// The gallery that an address names; no cover is chosen.
    pub fn parse(text: &str) -> (url: Option<EhGalleryUrl>)
        ensures
            url_view(url) == gallery_in(text@),
    {
        let id = capture_named("/g/(?P<id>\\d+)/(?P<token>[^/?#]+)", "id", text);
        let token = capture_named("/g/(?P<id>\\d+)/(?P<token>[^/?#]+)", "token", text);
        gallery_from_captures(&id, &token)
    }
}

impl EhPageUrl {
    /// The page that an address names.
    pub fn parse(text: &str) -> (url: Option<EhPageUrl>)
        ensures
            page_view(url) == page_in(text@),
    {
        let hash = capture_named("/s/(?P<hash>[^/?#]+)/(?P<gallery>\\d+)-(?P<page>\\d+)", "hash", text);
        let gallery = capture_named(
            "/s/(?P<hash>[^/?#]+)/(?P<gallery>\\d+)-(?P<page>\\d+)",
            "gallery",
            text,
        );
        let page = capture_named("/s/(?P<hash>[^/?#]+)/(?P<gallery>\\d+)-(?P<page>\\d+)", "page", text);
        page_from_captures(&hash, &gallery, &page)
    }

    /// The address of the page at the catalog.
    pub fn url(&self) -> (url: String)
        ensures
            url@ == page_address(self@),
    {
        let mut url = String::new();
        url.append("https://exhentai.org/s/");
        url.append(self.hash.as_str());
        url.append("/");
        url.append(string_of(&decimal_of(self.gallery_id as i64)).as_str());
        url.append("-");
        url.append(string_of(&decimal_of(self.page as i64)).as_str());
        url
    }
}

/// The galleries that a list of addresses names, in order; `None` where
/// one of them names none.
pub open spec fn galleries_in(addresses: Seq<Seq<char>>) -> Option<Seq<GalleryUrlView>>
    decreases addresses.len(),
{
    if addresses.len() == 0 {
        Some(Seq::empty())
    } else {
        match (galleries_in(addresses.drop_last()), gallery_in(addresses.last())) {
            (Some(before), Some(last)) => Some(before.push(last)),
            _ => None,
        }
    }
}

/// The pages that a list of addresses names, in order; `None` where one
/// of them names none.
pub open spec fn pages_in(addresses: Seq<Seq<char>>) -> Option<Seq<PageView>>
    decreases addresses.len(),
{
    if addresses.len() == 0 {
        Some(Seq::empty())
    } else {
        match (pages_in(addresses.drop_last()), page_in(addresses.last())) {
            (Some(before), Some(last)) => Some(before.push(last)),
            _ => None,
        }
    }
}

proof fn lemma_galleries_none(addresses: Seq<Seq<char>>, i: int)
    requires
        0 <= i < addresses.len(),
        gallery_in(addresses[i]) is None,
    ensures
        galleries_in(addresses) is None,
    decreases addresses.len(),
{
    if i < addresses.len() - 1 {
        lemma_galleries_none(addresses.drop_last(), i);
    }
}

proof fn lemma_pages_none(addresses: Seq<Seq<char>>, i: int)
    requires
        0 <= i < addresses.len(),
        page_in(addresses[i]) is None,
    ensures
        pages_in(addresses) is None,
    decreases addresses.len(),
{
    if i < addresses.len() - 1 {
        lemma_pages_none(addresses.drop_last(), i);
    }
}

pub open spec fn urls_view(urls: Option<Vec<EhGalleryUrl>>) -> Option<Seq<GalleryUrlView>> {
    match urls {
        Some(list) => Some(url_views(list@)),
        None => None,
    }
}

pub open spec fn pages_view(pages: Option<Vec<EhPageUrl>>) -> Option<Seq<PageView>> {
    match pages {
        Some(list) => Some(page_views(list@)),
        None => None,
    }
}

/// The galleries that a page of the catalog's list links to.
pub fn gallery_list(addresses: &Vec<String>) -> (urls: Option<Vec<EhGalleryUrl>>)
    ensures
        urls_view(urls) == galleries_in(addresses.deep_view()),
{
    let mut urls: Vec<EhGalleryUrl> = Vec::new();
    let mut i: usize = 0;
    while i < addresses.len()
        invariant
            i <= addresses@.len(),
            Some(url_views(urls@)) == galleries_in(addresses.deep_view().take(i as int)),
        decreases addresses@.len() - i,
    {
        proof {
            let all = addresses.deep_view();
            assert(all.take(i + 1).drop_last() =~= all.take(i as int));
            assert(all.take(i + 1).last() == addresses@[i as int]@);
        }
        match EhGalleryUrl::parse(addresses[i].as_str()) {
            Some(url) => {
                let ghost before = url_views(urls@);
                urls.push(url);
                assert(url_views(urls@) =~= before.push(url@));
            },
            None => {
                proof {
                    lemma_galleries_none(addresses.deep_view(), i as int);
                }
                return None;
            },
        }
        i += 1;
    }
    proof {
        assert(addresses.deep_view().take(addresses@.len() as int) =~= addresses.deep_view());
    }
    Some(urls)
}

/// The pages that the addresses name.
pub fn page_list(addresses: &Vec<String>) -> (pages: Option<Vec<EhPageUrl>>)
    ensures
        pages_view(pages) == pages_in(addresses.deep_view()),
{
    let mut pages: Vec<EhPageUrl> = Vec::new();
    let mut i: usize = 0;
    while i < addresses.len()
        invariant
            i <= addresses@.len(),
            Some(page_views(pages@)) == pages_in(addresses.deep_view().take(i as int)),
        decreases addresses@.len() - i,
    {
        proof {
            let all = addresses.deep_view();
            assert(all.take(i + 1).drop_last() =~= all.take(i as int));
            assert(all.take(i + 1).last() == addresses@[i as int]@);
        }
        match EhPageUrl::parse(addresses[i].as_str()) {
            Some(page) => {
                let ghost before = page_views(pages@);
                pages.push(page);
                assert(page_views(pages@) =~= before.push(page@));
            },
            None => {
                proof {
                    lemma_pages_none(addresses.deep_view(), i as int);
                }
                return None;
            },
        }
        i += 1;
    }
    proof {
        assert(addresses.deep_view().take(addresses@.len() as int) =~= addresses.deep_view());
    }
    Some(pages)
}

/// Where an image is and what its index at the catalog is, given the
/// address that the page of the image shows it from.
pub open spec fn resolved_image(src: Option<Seq<char>>) -> Option<(u32, Seq<char>)> {
    match src {
        Some(url) => match fileindex_of(regex_capture(fileindex_pattern(), "fileindex"@, url)) {
            Some(fileindex) => Some((fileindex, url)),
            None => None,
        },
        None => None,
    }
}

pub open spec fn image_view(image: Option<(u32, String)>) -> Option<(u32, Seq<char>)> {
    match image {
        Some((fileindex, url)) => Some((fileindex, url@)),
        None => None,
    }
}

/// Where the image of a page is and what its index at the catalog is,
/// given the address that the page shows the image from; `None` where the
/// page shows no image or the address names no file index.
pub fn resolve_image(src: Option<String>) -> (image: Option<(u32, String)>)
    ensures
        image_view(image) == resolved_image(text_view(src)),
{
    match src {
        Some(url) => match extract_fileindex(url.as_str()) {
            Some(fileindex) => Some((fileindex, url)),
            None => None,
        },
        None => None,
    }
}

} // verus!

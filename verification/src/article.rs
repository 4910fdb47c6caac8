//! The article of a gallery: its images in the order of their pages.
//!
//! The list is read from the store by position, so the order in which the
//! images were re-hosted does not show in it. An image that fills several
//! pages is listed once, where it first occurs. Where a cover is chosen and
//! the list is long enough to hold it, the cover is shown once more in front.

use crate::store::{Store, StoreView};
use vstd::prelude::*;
use vstd::string::StringExecFns;

verus! {

/// The addresses of the images at positions 1 to `count` of a gallery, in
/// the order of the positions, each address once. Positions that are not
/// filled are passed over.
pub open spec fn page_images(store: StoreView, gallery_id: i32, count: int) -> Seq<Seq<char>>
    decreases count,
{
    if count <= 0 {
        Seq::empty()
    } else {
        let before = page_images(store, gallery_id, count - 1);
        let key = (gallery_id, count as i32);
        if store.pages.dom().contains(key) && store.images.dom().contains(store.pages[key]) {
            let url = store.images[store.pages[key]].url;
            if before.contains(url) {
                before
            } else {
                before.push(url)
            }
        } else {
            before
        }
    }
}

/// The highest position that is looked at for a gallery of `count` pages.
pub open spec fn last_position(count: int) -> int {
    if count > i32::MAX {
        i32::MAX as int
    } else {
        count
    }
}

/// The images of the article of a gallery of `count` pages: the cover in
/// front where one is chosen and in range, then the images of the pages.
pub open spec fn article_images(store: StoreView, gallery_id: i32, count: int, cover: int) -> Seq<
    Seq<char>,
> {
    let images = page_images(store, gallery_id, last_position(count));
    if cover != 0 && cover < images.len() {
        seq![images[cover]] + images
    } else {
        images
    }
}

/// The body of the article: one image element per address.
pub open spec fn article_html(images: Seq<Seq<char>>) -> Seq<char>
    decreases images.len(),
{
    if images.len() == 0 {
        Seq::empty()
    } else {
        article_html(images.drop_last()) + "<img src=\""@ + images.last() + "\">"@
    }
}

fn holds(list: &Vec<String>, text: &String) -> (found: bool)
    ensures
        found == list.deep_view().contains(text@),
{
    let mut i: usize = 0;
    while i < list.len()
        invariant
            i <= list@.len(),
            forall|k: int| 0 <= k < i ==> list.deep_view()[k] != text@,
        decreases list@.len() - i,
    {
        if list[i] == *text {
            assert(list.deep_view()[i as int] == text@);
            return true;
        }
        i += 1;
    }
    false
}

/// The images of the article of gallery `gallery_id`, which has `count`
/// pages and shows page `cover` in front (0 for none).
pub fn gallery_images(store: &Store, gallery_id: i32, count: usize, cover: usize) -> (images: Vec<
    String,
>)
    requires
        store.wf(),
    ensures
        images.deep_view() == article_images(store@, gallery_id, count as int, cover as int),
{
    let last: i32 = if count > i32::MAX as usize {
        i32::MAX
    } else {
        count as i32
    };
    let mut images: Vec<String> = Vec::new();
    let mut position: i32 = 0;
    assert(images.deep_view() =~= page_images(store@, gallery_id, 0));
    while position < last
        invariant
            0 <= position <= last,
            store.wf(),
            images.deep_view() == page_images(store@, gallery_id, position as int),
        decreases last - position,
    {
        position += 1;
        let ghost before = images.deep_view();
        match store.page(gallery_id, position) {
            Some(hash) => {
                match store.image(hash) {
                    Some(image) => {
                        if !holds(&images, &image.url) {
                            images.push(image.url.clone());
                            assert(images.deep_view() =~= before.push(image.url@));
                        }
                    },
                    None => {},
                }
            },
            None => {},
        }
    }
    if cover != 0 && cover < images.len() {
        let ghost listed = images.deep_view();
        let front: String = images[cover].clone();
        images.insert(0, front);
        assert(images.deep_view() =~= seq![listed[cover as int]] + listed);
    }
    images
}

/// The body of the article that shows `images`.
pub fn render_article(images: &Vec<String>) -> (html: String)
    ensures
        html@ == article_html(images.deep_view()),
{
    let mut html = String::new();
    let mut i: usize = 0;
    while i < images.len()
        invariant
            i <= images@.len(),
            html@ == article_html(images.deep_view().take(i as int)),
        decreases images@.len() - i,
    {
        let ghost before = html@;
        proof {
            let all = images.deep_view();
            assert(all.take(i + 1).drop_last() =~= all.take(i as int));
            assert(all.take(i + 1).last() == images@[i as int]@);
        }
        html.append("<img src=\"");
        html.append(images[i].as_str());
        html.append("\">");
        i += 1;
    }
    proof {
        assert(images.deep_view().take(images@.len() as int) =~= images.deep_view());
    }
    html
}

/// No address is listed twice among the images of the pages, and every
/// address listed is that of an image that fills one of the positions.
pub proof fn lemma_page_images_distinct(store: StoreView, gallery_id: i32, count: int)
    requires
        count <= i32::MAX,
    ensures
        page_images(store, gallery_id, count).no_duplicates(),
        forall|k: int|
            0 <= k < page_images(store, gallery_id, count).len() ==> exists|p: int|
                1 <= p <= count && store.bound(gallery_id, p as i32) && store.images.dom().contains(
                    store.pages[(gallery_id, p as i32)],
                ) && #[trigger] store.images[store.pages[(gallery_id, p as i32)]].url
                    == #[trigger] page_images(store, gallery_id, count)[k],
    decreases count,
{
    if count > 0 {
        lemma_page_images_distinct(store, gallery_id, count - 1);
        let before = page_images(store, gallery_id, count - 1);
        let all = page_images(store, gallery_id, count);
        let key = (gallery_id, count as i32);
        assert forall|k: int| 0 <= k < all.len() implies exists|p: int|
            1 <= p <= count && store.bound(gallery_id, p as i32) && store.images.dom().contains(
                store.pages[(gallery_id, p as i32)],
            ) && #[trigger] store.images[store.pages[(gallery_id, p as i32)]].url
                == #[trigger] all[k] by {
            if k < before.len() {
                assert(all[k] == before[k]);
                let p = choose|p: int|
                    1 <= p <= count - 1 && store.bound(gallery_id, p as i32)
                        && store.images.dom().contains(store.pages[(gallery_id, p as i32)])
                        && #[trigger] store.images[store.pages[(gallery_id, p as i32)]].url
                        == #[trigger] before[k];
                assert(store.images[store.pages[(gallery_id, p as i32)]].url == all[k]);
            } else {
                assert(store.images[store.pages[(gallery_id, count as i32)]].url == all[k]);
            }
        }
    }
}

} // verus!

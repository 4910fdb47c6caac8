//! What the catalog tells about a gallery: its address, its pages and its
//! detail, and the snapshot of it that the store keeps.

use crate::tags::{tag_entries, tags_clone};
use crate::text::{decimal, decimal_of, duplicate_text, string_of, text_view};
use indexmap::IndexMap;
use vstd::prelude::*;
use vstd::string::StringExecFns;

verus! {

/// The address of a gallery in the catalog.
#[derive(Debug)]
pub struct EhGalleryUrl {
    pub id: i32,
    pub token: String,
    /// The page to show first in the article; 0 where none is chosen.
    pub cover: usize,
}

pub struct GalleryUrlView {
    pub id: i32,
    pub token: Seq<char>,
    pub cover: usize,
}

impl View for EhGalleryUrl {
    type V = GalleryUrlView;

    open spec fn view(&self) -> GalleryUrlView {
        GalleryUrlView { id: self.id, token: self.token@, cover: self.cover }
    }
}

/// The address of the gallery `id` with token `token` at the catalog.
pub open spec fn source_url(id: i32, token: Seq<char>) -> Seq<char> {
    "https://exhentai.org/g/"@ + decimal(id as int) + "/"@ + token
}

/// The address of gallery `id` with token `token` at the catalog.
pub fn gallery_url(id: i32, token: &String) -> (url: String)
    ensures
        url@ == source_url(id, token@),
{
    let mut url = String::new();
    url.append("https://exhentai.org/g/");
    url.append(string_of(&decimal_of(id as i64)).as_str());
    url.append("/");
    url.append(token.as_str());
    url
}

/// The views of a list of addresses.
pub open spec fn url_views(urls: Seq<EhGalleryUrl>) -> Seq<GalleryUrlView> {
    urls.map_values(|u: EhGalleryUrl| u@)
}

impl EhGalleryUrl {
    /// The address of the gallery at the catalog.
    pub fn url(&self) -> (url: String)
        ensures
            url@ == source_url(self@.id, self@.token),
    {
        gallery_url(self.id, &self.token)
    }

    pub fn new(id: i32, token: String, cover: usize) -> (url: Self)
        ensures
            url@ == (GalleryUrlView { id, token: token@, cover }),
    {
        EhGalleryUrl { id, token, cover }
    }

    pub fn id(&self) -> (id: i32)
        ensures
            id == self@.id,
    {
        self.id
    }

    pub fn token(&self) -> (token: &String)
        ensures
            token@ == self@.token,
    {
        &self.token
    }

    pub fn cover(&self) -> (cover: usize)
        ensures
            cover == self@.cover,
    {
        self.cover
    }

    pub fn duplicate(&self) -> (copy: Self)
        ensures
            copy@ == self@,
    {
        EhGalleryUrl { id: self.id, token: self.token.clone(), cover: self.cover }
    }
}

/// One page of a gallery: the image at a position, named by the hash of its
/// content.
#[derive(Debug)]
pub struct EhPageUrl {
    pub hash: String,
    pub gallery_id: i32,
    /// The position in the gallery, counted from 1.
    pub page: i32,
}

pub struct PageView {
    pub hash: Seq<char>,
    pub gallery_id: i32,
    pub page: i32,
}

impl View for EhPageUrl {
    type V = PageView;

    open spec fn view(&self) -> PageView {
        PageView { hash: self.hash@, gallery_id: self.gallery_id, page: self.page }
    }
}

impl EhPageUrl {
    pub fn new(hash: String, gallery_id: i32, page: i32) -> (url: Self)
        ensures
            url@ == (PageView { hash: hash@, gallery_id, page }),
    {
        EhPageUrl { hash, gallery_id, page }
    }

    pub fn hash(&self) -> (hash: &String)
        ensures
            hash@ == self@.hash,
    {
        &self.hash
    }

    pub fn gallery_id(&self) -> (id: i32)
        ensures
            id == self@.gallery_id,
    {
        self.gallery_id
    }

    pub fn page(&self) -> (page: i32)
        ensures
            page == self@.page,
    {
        self.page
    }

    pub fn duplicate(&self) -> (copy: Self)
        ensures
            copy@ == self@,
    {
        EhPageUrl { hash: self.hash.clone(), gallery_id: self.gallery_id, page: self.page }
    }
}

/// The views of a list of pages.
pub open spec fn page_views(pages: Seq<EhPageUrl>) -> Seq<PageView> {
    pages.map_values(|p: EhPageUrl| p@)
}

/// A copy of a list of pages.
pub fn duplicate_pages(pages: &Vec<EhPageUrl>) -> (copy: Vec<EhPageUrl>)
    ensures
        page_views(copy@) == page_views(pages@),
{
    let mut copy: Vec<EhPageUrl> = Vec::new();
    let mut i: usize = 0;
    while i < pages.len()
        invariant
            i <= pages@.len(),
            copy@.len() == i,
            forall|j: int| 0 <= j < i ==> (#[trigger] copy@[j])@ == pages@[j]@,
        decreases pages@.len() - i,
    {
        copy.push(pages[i].duplicate());
        i += 1;
    }
    assert(page_views(copy@) =~= page_views(pages@));
    copy
}

/// The detail of a gallery as the catalog shows it.
#[derive(Debug)]
pub struct EhGallery {
    pub url: EhGalleryUrl,
    pub title: String,
    pub title_jp: Option<String>,
    pub parent: Option<EhGalleryUrl>,
    pub tags: IndexMap<String, Vec<String>>,
    pub favorite: i32,
    pub pages: Vec<EhPageUrl>,
    /// When the gallery was posted, in seconds since the Unix epoch.
    pub posted: i64,
    pub cover: usize,
}

pub struct GalleryView {
    pub url: GalleryUrlView,
    pub title: Seq<char>,
    pub title_jp: Option<Seq<char>>,
    pub parent: Option<GalleryUrlView>,
    pub tags: Seq<(Seq<char>, Seq<Seq<char>>)>,
    pub favorite: i32,
    pub pages: Seq<PageView>,
    pub posted: i64,
    pub cover: usize,
}

pub open spec fn parent_view(parent: Option<EhGalleryUrl>) -> Option<GalleryUrlView> {
    match parent {
        Some(p) => Some(p@),
        None => None,
    }
}

impl View for EhGallery {
    type V = GalleryView;

    open spec fn view(&self) -> GalleryView {
        GalleryView {
            url: self.url@,
            title: self.title@,
            title_jp: text_view(self.title_jp),
            parent: parent_view(self.parent),
            tags: tag_entries(self.tags),
            favorite: self.favorite,
            pages: page_views(self.pages@),
            posted: self.posted,
            cover: self.cover,
        }
    }
}

impl GalleryView {
    /// The title to show: the title in the gallery's own language where there is one.
    pub open spec fn shown_title(self) -> Seq<char> {
        match self.title_jp {
            Some(t) => t,
            None => self.title,
        }
    }
}

impl EhGallery {
    /// The title to show: the title in the gallery's own language where there is one,
    /// the catalog title otherwise.
    pub fn title_jp(&self) -> (title: String)
        ensures
            title@ == self@.shown_title(),
    {
        match &self.title_jp {
            Some(t) => t.clone(),
            None => self.title.clone(),
        }
    }
}

/// The snapshot of a gallery that the store keeps: what was last seen of it.
#[derive(Debug)]
pub struct GalleryEntity {
    pub id: i32,
    pub token: String,
    pub title: String,
    pub title_jp: Option<String>,
    pub tags: IndexMap<String, Vec<String>>,
    pub favorite: i32,
    /// The number of pages.
    pub pages: usize,
    /// The id of the gallery that this one replaces.
    pub parent: Option<i32>,
    pub posted: i64,
    pub cover: usize,
}

pub struct GalleryEntityView {
    pub id: i32,
    pub token: Seq<char>,
    pub title: Seq<char>,
    pub title_jp: Option<Seq<char>>,
    pub tags: Seq<(Seq<char>, Seq<Seq<char>>)>,
    pub favorite: i32,
    pub pages: usize,
    pub parent: Option<i32>,
    pub posted: i64,
    pub cover: usize,
}

impl View for GalleryEntity {
    type V = GalleryEntityView;

    open spec fn view(&self) -> GalleryEntityView {
        GalleryEntityView {
            id: self.id,
            token: self.token@,
            title: self.title@,
            title_jp: text_view(self.title_jp),
            tags: tag_entries(self.tags),
            favorite: self.favorite,
            pages: self.pages,
            parent: self.parent,
            posted: self.posted,
            cover: self.cover,
        }
    }
}

impl GalleryEntityView {
    pub open spec fn shown_title(self) -> Seq<char> {
        match self.title_jp {
            Some(t) => t,
            None => self.title,
        }
    }
}

/// The snapshot that records the detail `g`.
pub open spec fn snapshot_of(g: GalleryView) -> GalleryEntityView {
    GalleryEntityView {
        id: g.url.id,
        token: g.url.token,
        title: g.title,
        title_jp: g.title_jp,
        tags: g.tags,
        favorite: g.favorite,
        pages: g.pages.len() as usize,
        parent: match g.parent {
            Some(p) => Some(p.id),
            None => None,
        },
        posted: g.posted,
        cover: g.cover,
    }
}

impl GalleryEntity {
    /// The snapshot that records what `gallery` shows.
    pub fn of(gallery: &EhGallery) -> (entity: Self)
        ensures
            entity@ == snapshot_of(gallery@),
    {
        let parent: Option<i32> = match &gallery.parent {
            Some(p) => Some(p.id),
            None => None,
        };
        GalleryEntity {
            id: gallery.url.id,
            token: gallery.url.token.clone(),
            title: gallery.title.clone(),
            title_jp: duplicate_text(&gallery.title_jp),
            tags: tags_clone(&gallery.tags),
            favorite: gallery.favorite,
            pages: gallery.pages.len(),
            parent,
            posted: gallery.posted,
            cover: gallery.cover,
        }
    }

    pub fn title_jp(&self) -> (title: String)
        ensures
            title@ == self@.shown_title(),
    {
        match &self.title_jp {
            Some(t) => t.clone(),
            None => self.title.clone(),
        }
    }

    pub fn duplicate(&self) -> (copy: Self)
        ensures
            copy@ == self@,
    {
        GalleryEntity {
            id: self.id,
            token: self.token.clone(),
            title: self.title.clone(),
            title_jp: duplicate_text(&self.title_jp),
            tags: tags_clone(&self.tags),
            favorite: self.favorite,
            pages: self.pages,
            parent: self.parent,
            posted: self.posted,
            cover: self.cover,
        }
    }
}

} // verus!

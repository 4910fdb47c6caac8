//! The item store: every gallery seen, every image re-hosted, the page that
//! each image fills, the message sent for a gallery and the article published
//! for it.
//!
//! Images are keyed by the hash of their content, so that an image shared by
//! several galleries is held once. Rows are never removed: images and pages
//! are written once, galleries and articles are replaced in place.

use crate::gallery::{GalleryEntity, GalleryEntityView};
use crate::schedule::Date;
use crate::table::{Key, Table};
use vstd::prelude::*;

verus! {

/// A position in a gallery.
#[derive(Clone, Copy, Debug)]
pub struct PageKey {
    pub gallery_id: i32,
    pub page: i32,
}

impl View for PageKey {
    type V = (i32, i32);

    open spec fn view(&self) -> (i32, i32) {
        (self.gallery_id, self.page)
    }
}

impl Key for PageKey {
    fn same(&self, other: &Self) -> (b: bool) {
        self.gallery_id == other.gallery_id && self.page == other.page
    }
}

/// A re-hosted image.
#[derive(Debug)]
pub struct ImageEntity {
    /// The index of the file at the catalog.
    pub fileindex: u32,
    /// Where the re-hosted copy is.
    pub url: String,
}

pub struct ImageView {
    pub fileindex: u32,
    pub url: Seq<char>,
}

impl View for ImageEntity {
    type V = ImageView;

    open spec fn view(&self) -> ImageView {
        ImageView { fileindex: self.fileindex, url: self.url@ }
    }
}

/// The message that announces a gallery.
#[derive(Clone, Copy, Debug)]
pub struct MessageEntity {
    pub id: i32,
    pub publish_date: Date,
}

impl View for MessageEntity {
    type V = MessageEntity;

    open spec fn view(&self) -> MessageEntity {
        *self
    }
}

pub struct Store {
    galleries: Table<i32, GalleryEntity>,
    images: Table<String, ImageEntity>,
    pages: Table<PageKey, String>,
    messages: Table<i32, MessageEntity>,
    telegraphs: Table<i32, String>,
}

/// The rows of a store.
pub struct StoreView {
    /// The snapshot of each gallery, by gallery id.
    pub galleries: Map<i32, GalleryEntityView>,
    /// Each image, by the hash of its content.
    pub images: Map<Seq<char>, ImageView>,
    /// The hash of the image at each position of each gallery.
    pub pages: Map<(i32, i32), Seq<char>>,
    /// The message of each gallery, by gallery id.
    pub messages: Map<i32, MessageEntity>,
    /// The address of the article of each gallery, by gallery id.
    pub telegraphs: Map<i32, Seq<char>>,
}

impl StoreView {
    /// Every page is filled by an image that the store holds.
    pub open spec fn consistent(self) -> bool {
        forall|k: (i32, i32)|
            (#[trigger] self.pages.dom().contains(k)) ==> self.images.dom().contains(
                self.pages[k],
            )
    }

    /// Position `page` of gallery `gallery_id` is filled.
    pub open spec fn bound(self, gallery_id: i32, page: i32) -> bool {
        self.pages.dom().contains((gallery_id, page))
    }

    /// Nothing that `earlier` holds is missing: every image and page of
    /// `earlier` is here unchanged, and every gallery, message and article
    /// of `earlier` still has a row.
    pub open spec fn extends(self, earlier: StoreView) -> bool {
        &&& earlier.images.submap_of(self.images)
        &&& earlier.pages.submap_of(self.pages)
        &&& earlier.galleries.dom().subset_of(self.galleries.dom())
        &&& earlier.messages.dom().subset_of(self.messages.dom())
        &&& earlier.telegraphs.dom().subset_of(self.telegraphs.dom())
    }

    /// The store after image `hash` was offered: written if it was not held.
    pub open spec fn with_image(self, hash: Seq<char>, image: ImageView) -> StoreView {
        if self.images.dom().contains(hash) {
            self
        } else {
            StoreView { images: self.images.insert(hash, image), ..self }
        }
    }

    /// The store after a page was offered: written if the position was
    /// empty and the image is held.
    pub open spec fn with_page(self, gallery_id: i32, page: i32, hash: Seq<char>) -> StoreView {
        if self.images.dom().contains(hash) && !self.pages.dom().contains((gallery_id, page)) {
            StoreView { pages: self.pages.insert((gallery_id, page), hash), ..self }
        } else {
            self
        }
    }
}

impl View for Store {
    type V = StoreView;

    closed spec fn view(&self) -> StoreView {
        StoreView {
            galleries: self.galleries@,
            images: self.images@,
            pages: self.pages@,
            messages: self.messages@,
            telegraphs: self.telegraphs@,
        }
    }
}

impl Store {
    /// No key has two rows, and every page is filled by an image held.
    pub closed spec fn wf(&self) -> bool {
        &&& self.galleries.wf()
        &&& self.images.wf()
        &&& self.pages.wf()
        &&& self.messages.wf()
        &&& self.telegraphs.wf()
        &&& self@.consistent()
    }

    /// A well-formed store is consistent.
    pub proof fn lemma_consistent(&self)
        requires
            self.wf(),
        ensures
            self@.consistent(),
    {
    }

    /// The empty store.
    pub fn new() -> (store: Self)
        ensures
            store.wf(),
            store@.galleries == Map::<i32, GalleryEntityView>::empty(),
            store@.images == Map::<Seq<char>, ImageView>::empty(),
            store@.pages == Map::<(i32, i32), Seq<char>>::empty(),
            store@.messages == Map::<i32, MessageEntity>::empty(),
            store@.telegraphs == Map::<i32, Seq<char>>::empty(),
    {
        Store {
            galleries: Table::new(),
            images: Table::new(),
            pages: Table::new(),
            messages: Table::new(),
            telegraphs: Table::new(),
        }
    }

    /// Whether gallery `id` has a snapshot.
    pub fn has_gallery(&self, id: i32) -> (known: bool)
        requires
            self.wf(),
        ensures
            known == self@.galleries.dom().contains(id),
    {
        self.galleries.contains(&id)
    }

    /// The snapshot of gallery `id`.
    pub fn gallery(&self, id: i32) -> (row: Option<&GalleryEntity>)
        requires
            self.wf(),
        ensures
            match row {
                Some(g) => self@.galleries.dom().contains(id) && g@ == self@.galleries[id],
                None => !self@.galleries.dom().contains(id),
            },
    {
        self.galleries.get(&id)
    }

    /// Writes the snapshot of a gallery, in place of the one held for its id.
    pub fn put_gallery(&mut self, gallery: GalleryEntity)
        requires
            old(self).wf(),
        ensures
            final(self).wf(),
            final(self)@ == (StoreView {
                galleries: old(self)@.galleries.insert(gallery.id, gallery@),
                ..old(self)@
            }),
            final(self)@.extends(old(self)@),
    {
        let id: i32 = gallery.id;
        self.galleries.put(id, gallery);
        assert(self@.pages == old(self)@.pages && self@.images == old(self)@.images);
    }

    /// The message that announces gallery `gallery_id`.
    pub fn message(&self, gallery_id: i32) -> (row: Option<MessageEntity>)
        requires
            self.wf(),
        ensures
            match row {
                Some(m) => self@.messages.dom().contains(gallery_id) && m
                    == self@.messages[gallery_id],
                None => !self@.messages.dom().contains(gallery_id),
            },
    {
        match self.messages.get(&gallery_id) {
            Some(m) => Some(*m),
            None => None,
        }
    }

    /// Records the message that announces gallery `gallery_id`, in place of
    /// the one recorded before.
    pub fn put_message(&mut self, gallery_id: i32, message: MessageEntity)
        requires
            old(self).wf(),
        ensures
            final(self).wf(),
            final(self)@ == (StoreView {
                messages: old(self)@.messages.insert(gallery_id, message),
                ..old(self)@
            }),
            final(self)@.extends(old(self)@),
    {
        self.messages.put(gallery_id, message);
        assert(self@.pages == old(self)@.pages && self@.images == old(self)@.images);
    }

    /// The address of the article of gallery `gallery_id`.
    pub fn telegraph(&self, gallery_id: i32) -> (row: Option<&String>)
        requires
            self.wf(),
        ensures
            match row {
                Some(url) => self@.telegraphs.dom().contains(gallery_id) && url@
                    == self@.telegraphs[gallery_id],
                None => !self@.telegraphs.dom().contains(gallery_id),
            },
    {
        self.telegraphs.get(&gallery_id)
    }

    /// Records the article of gallery `gallery_id`, in place of the one
    /// recorded before.
    pub fn put_telegraph(&mut self, gallery_id: i32, url: String)
        requires
            old(self).wf(),
        ensures
            final(self).wf(),
            final(self)@ == (StoreView {
                telegraphs: old(self)@.telegraphs.insert(gallery_id, url@),
                ..old(self)@
            }),
            final(self)@.extends(old(self)@),
    {
        self.telegraphs.put(gallery_id, url);
        assert(self@.pages == old(self)@.pages && self@.images == old(self)@.images);
    }

    /// The image whose content has the given hash.
    pub fn image(&self, hash: &String) -> (row: Option<&ImageEntity>)
        requires
            self.wf(),
        ensures
            match row {
                Some(image) => self@.images.dom().contains(hash@) && image@
                    == self@.images[hash@],
                None => !self@.images.dom().contains(hash@),
            },
    {
        self.images.get(hash)
    }

    /// Records an image unless one with the same hash is held; says whether
    /// it wrote.
    pub fn add_image(&mut self, hash: String, image: ImageEntity) -> (written: bool)
        requires
            old(self).wf(),
        ensures
            final(self).wf(),
            written == !old(self)@.images.dom().contains(hash@),
            final(self)@ == old(self)@.with_image(hash@, image@),
            final(self)@.extends(old(self)@),
    {
        let written = self.images.put_new(hash, image);
        proof {
            assert(self@.pages == old(self)@.pages);
            assert forall|k: (i32, i32)| self@.pages.dom().contains(k) implies self@.images.dom().contains(
                self@.pages[k],
            ) by {
                assert(old(self)@.pages.dom().contains(k));
            }
        }
        written
    }

    /// The hash of the image at a position of a gallery.
    pub fn page(&self, gallery_id: i32, page: i32) -> (row: Option<&String>)
        requires
            self.wf(),
        ensures
            match row {
                Some(hash) => self@.bound(gallery_id, page) && hash@ == self@.pages[(
                    gallery_id,
                    page,
                )],
                None => !self@.bound(gallery_id, page),
            },
    {
        self.pages.get(&PageKey { gallery_id, page })
    }

    /// Fills a position of a gallery with the image of the given hash, if
    /// the position is empty and the image is held; says whether the
    /// position is filled afterwards.
    pub fn bind_page(&mut self, gallery_id: i32, page: i32, hash: &String) -> (filled: bool)
        requires
            old(self).wf(),
        ensures
            final(self).wf(),
            final(self)@ == old(self)@.with_page(gallery_id, page, hash@),
            final(self)@.extends(old(self)@),
            filled == final(self)@.bound(gallery_id, page),
    {
        let key = PageKey { gallery_id, page };
        if self.pages.contains(&key) {
            true
        } else if self.images.contains(hash) {
            self.pages.put_new(key, hash.clone());
            proof {
                assert(self@.images == old(self)@.images);
                assert forall|k: (i32, i32)| self@.pages.dom().contains(k) implies self@.images.dom().contains(
                    self@.pages[k],
                ) by {
                    if k != (gallery_id, page) {
                        assert(old(self)@.pages.dom().contains(k));
                    }
                }
            }
            true
        } else {
            false
        }
    }

    /// The number of images held.
    pub fn image_count(&self) -> (n: usize)
        requires
            self.wf(),
        ensures
            self@.images.dom().finite(),
            n == self@.images.dom().len(),
    {
        self.images.len()
    }

    /// The number of pages filled, over all galleries.
    pub fn page_count(&self) -> (n: usize)
        requires
            self.wf(),
        ensures
            self@.pages.dom().finite(),
            n == self@.pages.dom().len(),
    {
        self.pages.len()
    }
}

} // verus!

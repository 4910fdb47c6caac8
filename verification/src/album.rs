//! Albums at the image host: the images of a gallery grouped under one name.
//!
//! An album is created with its first batch of files and takes the further
//! batches by edits, one batch at a time. The images of a gallery are handed
//! to the host by their address, page after page, before the album is made.
//!
//! As elsewhere, the outside work is left to the driver: an [`AlbumTask`]
//! says what to ask of the catalog and what to post to the host, and is
//! told what came back.

use crate::catbox::{
    answer_of, created_album, edited_album, form_view, joined, json_text_member, uploaded_url,
    CatboxError, CatboxUploader, Field, PartView,
};
use crate::gallery::{duplicate_pages, page_views, EhGallery, EhPageUrl, PageView};
use crate::text::{copy_texts, text_view};
use crate::uploader::ExloliUploader;
use vstd::prelude::*;

verus! {

/// The most files that go to the host in one call.
pub const ALBUM_BATCH: usize = 500;

/// How many batches `count` files make.
pub open spec fn batch_count(count: int) -> int {
    (count + ALBUM_BATCH - 1) / (ALBUM_BATCH as int)
}

/// Batch `k` of the files: the files from position `500 k` on, up to 500 of them.
pub open spec fn batch(files: Seq<Seq<char>>, k: int) -> Seq<Seq<char>> {
    let from = ALBUM_BATCH * k;
    let to = if from + ALBUM_BATCH < files.len() {
        from + ALBUM_BATCH
    } else {
        files.len() as int
    };
    files.subrange(from, to)
}

/// The files in batches, in order.
pub open spec fn batches(files: Seq<Seq<char>>) -> Seq<Seq<Seq<char>>> {
    Seq::new(batch_count(files.len() as int) as nat, |k: int| batch(files, k))
}

/// The files in batches of at most [`ALBUM_BATCH`], in order; every batch
/// but the last is full, and no batch is empty.
pub fn album_batches(files: &Vec<String>) -> (out: Vec<Vec<String>>)
    ensures
        out.deep_view() == batches(files.deep_view()),
{
    let ghost all = files.deep_view();
    let mut out: Vec<Vec<String>> = Vec::new();
    let mut current: Vec<String> = Vec::new();
    let mut i: usize = 0;
    while i < files.len()
        invariant
            i <= files@.len(),
            all == files.deep_view(),
            out@.len() == i / ALBUM_BATCH,
            forall|k: int| 0 <= k < out@.len() ==> (#[trigger] out@[k]).deep_view() == batch(all, k),
            current@.len() == i % ALBUM_BATCH,
            current.deep_view() == all.subrange(i - i % ALBUM_BATCH, i as int),
        decreases files@.len() - i,
    {
        let ghost before = current.deep_view();
        current.push(files[i].clone());
        proof {
            assert(current.deep_view() =~= before.push(files@[i as int]@));
            assert(current.deep_view() =~= all.subrange(i - i % ALBUM_BATCH, i + 1));
        }
        i += 1;
        if current.len() == ALBUM_BATCH {
            proof {
                let k = out@.len() as int;
                assert(i == ALBUM_BATCH * (k + 1));
                assert(current.deep_view() =~= batch(all, k));
            }
            out.push(current);
            current = Vec::new();
            proof {
                assert(current.deep_view() =~= all.subrange(i as int, i as int));
            }
        }
    }
    if current.len() > 0 {
        proof {
            let k = out@.len() as int;
            assert(current.deep_view() =~= batch(all, k));
        }
        out.push(current);
    }
    proof {
        assert(out@.len() == batch_count(all.len() as int));
        assert(out.deep_view() =~= batches(all));
    }
    out
}

/// The batches laid end to end are the files, no batch is empty or holds
/// more than [`ALBUM_BATCH`] files, and every batch but the last is full.
pub proof fn lemma_batches_cover(files: Seq<Seq<char>>, k: int)
    requires
        0 <= k < batch_count(files.len() as int),
    ensures
        batches(files).len() == batch_count(files.len() as int),
        1 <= batches(files)[k].len() <= ALBUM_BATCH,
        k < batch_count(files.len() as int) - 1 ==> batches(files)[k].len() == ALBUM_BATCH,
        forall|j: int|
            0 <= j < batches(files)[k].len() ==> #[trigger] batches(files)[k][j] == files[ALBUM_BATCH
                * k + j],
        files.len() == 0 <==> batch_count(files.len() as int) == 0,
        ALBUM_BATCH * (batch_count(files.len() as int) - 1) + batches(files)[batch_count(
            files.len() as int,
        ) - 1].len() == files.len(),
{
}

/// Why an album task failed.
#[derive(Clone, Copy, Debug, PartialEq, Eq, Structural)]
pub enum AlbumError {
    /// The host refused a call or answered it badly.
    Host(CatboxError),
    /// The catalog did not say where an image is, or the host could not be reached.
    Outside,
    /// An outcome was handed in that the task had not asked for.
    Protocol,
}

/// Outside work that an album task asks for.
#[derive(Debug)]
pub enum AlbumRequest {
    /// Find out where the image of this page can be fetched.
    Resolve(EhPageUrl),
    /// Post this form to the host.
    Post(Vec<Field>),
}

pub enum AlbumRequestView {
    Resolve(PageView),
    Post(Seq<(Seq<char>, PartView)>),
}

impl View for AlbumRequest {
    type V = AlbumRequestView;

    open spec fn view(&self) -> AlbumRequestView {
        match self {
            AlbumRequest::Resolve(page) => AlbumRequestView::Resolve(page@),
            AlbumRequest::Post(form) => AlbumRequestView::Post(form_view(form@)),
        }
    }
}

pub open spec fn album_request_view(request: Option<AlbumRequest>) -> Option<AlbumRequestView> {
    match request {
        Some(r) => Some(r@),
        None => None,
    }
}

/// The outcome of outside work for an album task.
#[derive(Debug)]
pub enum AlbumReply {
    /// Where the image of the page can be fetched.
    Resolved { url: String },
    /// What the host answered: whether with a status of success, and the body.
    Answer { accepted: bool, body: Vec<u8> },
    /// The work failed.
    Failed,
}

pub enum AlbumReplyView {
    Resolved { url: Seq<char> },
    Answer { accepted: bool, body: Seq<u8> },
    Failed,
}

impl View for AlbumReply {
    type V = AlbumReplyView;

    open spec fn view(&self) -> AlbumReplyView {
        match self {
            AlbumReply::Resolved { url } => AlbumReplyView::Resolved { url: url@ },
            AlbumReply::Answer { accepted, body } => AlbumReplyView::Answer {
                accepted: *accepted,
                body: body@,
            },
            AlbumReply::Failed => AlbumReplyView::Failed,
        }
    }
}

/// What an album task waits for.
#[derive(Clone, Copy, Debug, PartialEq, Eq, Structural)]
pub enum AlbumPhase {
    /// The address of the image of the next page.
    Resolving,
    /// The answer of the host to the upload of the image of the next page.
    Uploading,
    /// The answer of the host to the creation of the album.
    Creating,
    /// The answer of the host to the edit that carries batch `batch`.
    Editing { batch: usize },
    /// Nothing: the album is made.
    Done,
    /// Nothing: the task has failed.
    Failed(AlbumError),
}

pub struct AlbumTask {
    catbox: CatboxUploader,
    title: String,
    description: String,
    pages: Vec<EhPageUrl>,
    files: Vec<String>,
    short: Option<String>,
    phase: AlbumPhase,
    outbox: Option<AlbumRequest>,
}

pub struct AlbumView {
    /// The account at the host.
    pub userhash: Seq<char>,
    pub title: Seq<char>,
    pub description: Seq<char>,
    /// The pages whose images go into the album, where the task uploads them itself.
    pub pages: Seq<PageView>,
    /// The files of the album: those handed in, or those uploaded so far.
    pub files: Seq<Seq<char>>,
    /// The short name of the album, once it is known.
    pub short: Option<Seq<char>>,
    pub phase: AlbumPhase,
    /// The request that the driver has not taken yet.
    pub outbox: Option<AlbumRequestView>,
}

/// The form that has the host fetch a file.
pub open spec fn upload_url_form(userhash: Seq<char>, url: Seq<char>) -> Seq<(Seq<char>, PartView)> {
    seq![
        ("reqtype"@, PartView::Text("urlupload"@)),
        ("userhash"@, PartView::Text(userhash)),
        ("url"@, PartView::Text(url)),
    ]
}

/// The form that creates an album.
pub open spec fn create_form(
    userhash: Seq<char>,
    title: Seq<char>,
    description: Seq<char>,
    files: Seq<Seq<char>>,
) -> Seq<(Seq<char>, PartView)> {
    seq![
        ("reqtype"@, PartView::Text("createalbum"@)),
        ("userhash"@, PartView::Text(userhash)),
        ("title"@, PartView::Text(title)),
        ("desc"@, PartView::Text(description)),
        ("fileToUpload"@, PartView::Bytes(joined(files))),
    ]
}

/// The form that edits an album.
pub open spec fn edit_form(
    userhash: Seq<char>,
    short: Seq<char>,
    title: Seq<char>,
    description: Seq<char>,
    files: Seq<Seq<char>>,
) -> Seq<(Seq<char>, PartView)> {
    seq![
        ("reqtype"@, PartView::Text("editalbum"@)),
        ("userhash"@, PartView::Text(userhash)),
        ("short"@, PartView::Text(short)),
        ("title"@, PartView::Text(title)),
        ("desc"@, PartView::Text(description)),
        ("files"@, PartView::Text(joined(files))),
    ]
}

impl AlbumView {
    /// Batch `k` of the files of the album; the empty batch for an album
    /// without files.
    pub open spec fn batch_or_none(self, k: int) -> Seq<Seq<char>> {
        if 0 <= k < batches(self.files).len() {
            batches(self.files)[k]
        } else {
            Seq::empty()
        }
    }

    pub open spec fn failed(self, error: AlbumError) -> AlbumView {
        AlbumView { phase: AlbumPhase::Failed(error), outbox: None, ..self }
    }

    /// The task as it turns to the creation of the album, with its first batch.
    pub open spec fn creating(self) -> AlbumView {
        AlbumView {
            phase: AlbumPhase::Creating,
            outbox: Some(
                AlbumRequestView::Post(
                    create_form(self.userhash, self.title, self.description, self.batch_or_none(0)),
                ),
            ),
            ..self
        }
    }

    /// The task as it turns to the edit that carries batch `k`.
    pub open spec fn editing(self, k: int) -> AlbumView {
        AlbumView {
            phase: AlbumPhase::Editing { batch: k as usize },
            outbox: Some(
                AlbumRequestView::Post(
                    edit_form(
                        self.userhash,
                        self.short.unwrap(),
                        self.title,
                        self.description,
                        self.batch_or_none(k),
                    ),
                ),
            ),
            ..self
        }
    }

    /// The task as it turns to the next page, or to the album once every
    /// page has its file.
    pub open spec fn next_page(self) -> AlbumView {
        if self.files.len() < self.pages.len() {
            AlbumView {
                phase: AlbumPhase::Resolving,
                outbox: Some(AlbumRequestView::Resolve(self.pages[self.files.len() as int])),
                ..self
            }
        } else {
            self.creating()
        }
    }

    /// The task after an edit went through: the next batch, or the end.
    pub open spec fn next_batch(self, sent: int) -> AlbumView {
        if sent + 1 < batches(self.files).len() {
            self.editing(sent + 1)
        } else {
            AlbumView { phase: AlbumPhase::Done, outbox: None, ..self }
        }
    }

    /// The task after an outcome was handed in.
    pub open spec fn after(self, reply: AlbumReplyView) -> AlbumView {
        match self.phase {
            AlbumPhase::Done => self,
            AlbumPhase::Failed(_) => self,
            _ => match reply {
                AlbumReplyView::Failed => self.failed(AlbumError::Outside),
                AlbumReplyView::Resolved { url } => if self.phase == AlbumPhase::Resolving {
                    AlbumView {
                        phase: AlbumPhase::Uploading,
                        outbox: Some(AlbumRequestView::Post(upload_url_form(self.userhash, url))),
                        ..self
                    }
                } else {
                    self.failed(AlbumError::Protocol)
                },
                AlbumReplyView::Answer { accepted, body } => match self.phase {
                    AlbumPhase::Uploading => match answer_of(
                        accepted,
                        json_text_member(body, "fileURL"@),
                        CatboxError::UploadUrl,
                        CatboxError::NoFileUrl,
                    ) {
                        Ok(file) => (AlbumView { files: self.files.push(file), ..self }).next_page(),
                        Err(e) => self.failed(AlbumError::Host(e)),
                    },
                    AlbumPhase::Creating => match answer_of(
                        accepted,
                        json_text_member(body, "short"@),
                        CatboxError::CreateAlbum,
                        CatboxError::CreateAlbum,
                    ) {
                        Ok(short) => (AlbumView { short: Some(short), ..self }).next_batch(0),
                        Err(e) => self.failed(AlbumError::Host(e)),
                    },
                    AlbumPhase::Editing { batch } => if accepted {
                        self.next_batch(batch as int)
                    } else {
                        self.failed(AlbumError::Host(CatboxError::EditAlbum))
                    },
                    _ => self.failed(AlbumError::Protocol),
                },
            },
        }
    }
}

impl View for AlbumTask {
    type V = AlbumView;

    closed spec fn view(&self) -> AlbumView {
        AlbumView {
            userhash: self.catbox.userhash(),
            title: self.title@,
            description: self.description@,
            pages: page_views(self.pages@),
            files: self.files.deep_view(),
            short: text_view(self.short),
            phase: self.phase,
            outbox: album_request_view(self.outbox),
        }
    }
}

impl AlbumTask {
    /// An edit is under way only for an album whose name is known.
    pub closed spec fn wf(&self) -> bool {
        &&& self.phase is Editing ==> self.short is Some
        &&& (self.phase is Resolving || self.phase is Uploading) ==> self.files@.len()
            < self.pages@.len()
    }

    fn batch_of(&self, k: usize) -> (files: Vec<String>)
        ensures
            files.deep_view() == self@.batch_or_none(k as int),
    {
        let all: Vec<Vec<String>> = album_batches(&self.files);
        if k < all.len() {
            assert(all@[k as int].deep_view() == all.deep_view()[k as int]);
            copy_texts(&all[k])
        } else {
            let files: Vec<String> = Vec::new();
            assert(files.deep_view() =~= Seq::<Seq<char>>::empty());
            files
        }
    }

    fn batch_total(&self) -> (n: usize)
        ensures
            n == batches(self@.files).len(),
    {
        let all: Vec<Vec<String>> = album_batches(&self.files);
        proof {
            assert(all.deep_view().len() == all@.len());
        }
        all.len()
    }

    fn failed(self, error: AlbumError) -> (task: AlbumTask)
        ensures
            task.wf(),
            task@ == self@.failed(error),
    {
        AlbumTask { phase: AlbumPhase::Failed(error), outbox: None, ..self }
    }

    fn creating(self) -> (task: AlbumTask)
        ensures
            task.wf(),
            task@ == self@.creating(),
    {
        let form = self.catbox.create_album(
            self.title.as_str(),
            self.description.as_str(),
            &self.batch_of(0),
        );
        AlbumTask { phase: AlbumPhase::Creating, outbox: Some(AlbumRequest::Post(form)), ..self }
    }

    fn editing(self, k: usize) -> (task: AlbumTask)
        requires
            self.short is Some,
        ensures
            task.wf(),
            task@ == self@.editing(k as int),
    {
        let form = match &self.short {
            Some(short) => self.catbox.edit_album(
                short.as_str(),
                self.title.as_str(),
                self.description.as_str(),
                &self.batch_of(k),
            ),
            None => Vec::new(),
        };
        AlbumTask {
            phase: AlbumPhase::Editing { batch: k },
            outbox: Some(AlbumRequest::Post(form)),
            ..self
        }
    }

    fn next_page(self) -> (task: AlbumTask)
        ensures
            task.wf(),
            task@ == self@.next_page(),
    {
        if self.files.len() < self.pages.len() {
            let page = self.pages[self.files.len()].duplicate();
            proof {
                assert(self@.files.len() == self.files@.len());
                assert(self@.pages[self.files@.len() as int] == self.pages@[self.files@.len() as int]@);
            }
            AlbumTask {
                phase: AlbumPhase::Resolving,
                outbox: Some(AlbumRequest::Resolve(page)),
                ..self
            }
        } else {
            proof {
                assert(self@.files.len() == self.files@.len());
            }
            self.creating()
        }
    }

    fn next_batch(self, sent: usize) -> (task: AlbumTask)
        requires
            self.short is Some,
        ensures
            task.wf(),
            task@ == self@.next_batch(sent as int),
    {
        let total: usize = self.batch_total();
        if sent < total && sent + 1 < total {
            self.editing(sent + 1)
        } else {
            AlbumTask { phase: AlbumPhase::Done, outbox: None, ..self }
        }
    }

    /// Begins the making of an album of the given files.
    pub fn create(catbox: &CatboxUploader, title: String, description: String, files: Vec<String>) -> (task:
        AlbumTask)
        ensures
            task.wf(),
            task@ == (AlbumView {
                userhash: catbox.userhash(),
                title: title@,
                description: description@,
                pages: Seq::empty(),
                files: files.deep_view(),
                short: None,
                phase: AlbumPhase::Creating,
                outbox: None,
            }).creating(),
    {
        let task = AlbumTask {
            catbox: catbox.duplicate(),
            title,
            description,
            pages: Vec::new(),
            files,
            short: None,
            phase: AlbumPhase::Creating,
            outbox: None,
        };
        proof {
            assert(task@.pages =~= Seq::<PageView>::empty());
        }
        task.creating()
    }

    /// Begins the edit of the album `short`: it gets the title, the
    /// description and the files given, batch by batch.
    pub fn update(
        catbox: &CatboxUploader,
        short: String,
        title: String,
        description: String,
        files: Vec<String>,
    ) -> (task: AlbumTask)
        ensures
            task.wf(),
            task@ == (AlbumView {
                userhash: catbox.userhash(),
                title: title@,
                description: description@,
                pages: Seq::empty(),
                files: files.deep_view(),
                short: Some(short@),
                phase: AlbumPhase::Creating,
                outbox: None,
            }).editing(0),
    {
        let task = AlbumTask {
            catbox: catbox.duplicate(),
            title,
            description,
            pages: Vec::new(),
            files,
            short: Some(short),
            phase: AlbumPhase::Creating,
            outbox: None,
        };
        proof {
            assert(task@.pages =~= Seq::<PageView>::empty());
        }
        task.editing(0)
    }

    /// Begins the upload of the images of the given pages and the making of
    /// an album of them.
    pub fn upload_and_create(
        catbox: &CatboxUploader,
        title: String,
        description: String,
        pages: &Vec<EhPageUrl>,
    ) -> (task: AlbumTask)
        ensures
            task.wf(),
            task@ == (AlbumView {
                userhash: catbox.userhash(),
                title: title@,
                description: description@,
                pages: page_views(pages@),
                files: Seq::empty(),
                short: None,
                phase: AlbumPhase::Resolving,
                outbox: None,
            }).next_page(),
    {
        let task = AlbumTask {
            catbox: catbox.duplicate(),
            title,
            description,
            pages: duplicate_pages(pages),
            files: Vec::new(),
            short: None,
            phase: AlbumPhase::Resolving,
            outbox: None,
        };
        proof {
            assert(task@.files =~= Seq::<Seq<char>>::empty());
        }
        task.next_page()
    }

    /// What the task waits for.
    pub fn phase(&self) -> (phase: AlbumPhase)
        ensures
            phase == self@.phase,
    {
        self.phase
    }

    /// The short name of the album, once the host has given it.
    pub fn short(&self) -> (short: &Option<String>)
        ensures
            text_view(*short) == self@.short,
    {
        &self.short
    }

    /// The files of the album: those handed in, or those uploaded so far.
    pub fn files(&self) -> (files: &Vec<String>)
        ensures
            files.deep_view() == self@.files,
    {
        &self.files
    }

    /// The next request for the driver to carry out, if the task has one.
    pub fn poll(&mut self) -> (request: Option<AlbumRequest>)
        requires
            old(self).wf(),
        ensures
            final(self).wf(),
            album_request_view(request) == old(self)@.outbox,
            final(self)@ == (AlbumView { outbox: None, ..old(self)@ }),
    {
        self.outbox.take()
    }

    /// Takes the outcome of a request and moves the task on. A task that is
    /// over stays as it is.
    pub fn handle(self, reply: AlbumReply) -> (next: AlbumTask)
        requires
            self.wf(),
        ensures
            next.wf(),
            next@ == self@.after(reply@),
    {
        match self.phase {
            AlbumPhase::Done => self,
            AlbumPhase::Failed(_) => self,
            _ => match reply {
                AlbumReply::Failed => self.failed(AlbumError::Outside),
                AlbumReply::Resolved { url } => match self.phase {
                    AlbumPhase::Resolving => {
                        let form = self.catbox.upload_url(url.as_str());
                        AlbumTask {
                            phase: AlbumPhase::Uploading,
                            outbox: Some(AlbumRequest::Post(form)),
                            ..self
                        }
                    },
                    _ => self.failed(AlbumError::Protocol),
                },
                AlbumReply::Answer { accepted, body } => match self.phase {
                    AlbumPhase::Uploading => match uploaded_url(accepted, body.as_slice()) {
                        Ok(file) => {
                            let ghost before = self.files.deep_view();
                            let mut task = self;
                            task.files.push(file);
                            proof {
                                assert(task@.files =~= before.push(file@));
                            }
                            task.next_page()
                        },
                        Err(e) => self.failed(AlbumError::Host(e)),
                    },
                    AlbumPhase::Creating => match created_album(accepted, body.as_slice()) {
                        Ok(short) => {
                            let task = AlbumTask { short: Some(short), ..self };
                            task.next_batch(0)
                        },
                        Err(e) => self.failed(AlbumError::Host(e)),
                    },
                    AlbumPhase::Editing { batch } => match edited_album(accepted) {
                        Ok(_) => self.next_batch(batch),
                        Err(e) => self.failed(AlbumError::Host(e)),
                    },
                    _ => self.failed(AlbumError::Protocol),
                },
            },
        }
    }
}

impl ExloliUploader {
    /// Begins the making of an album of the given files for a gallery: the
    /// album is named after the gallery and described with the author's name.
    pub fn create_album_and_upload_images(&self, gallery: &EhGallery, file_urls: Vec<String>) -> (task:
        AlbumTask)
        ensures
            task.wf(),
            task@ == (AlbumView {
                userhash: self@.userhash,
                title: gallery@.shown_title(),
                description: self@.author_name,
                pages: Seq::empty(),
                files: file_urls.deep_view(),
                short: None,
                phase: AlbumPhase::Creating,
                outbox: None,
            }).creating(),
    {
        AlbumTask::create(
            self.catbox_uploader(),
            gallery.title_jp(),
            self.author_name().clone(),
            file_urls,
        )
    }

    /// Begins the edit of the album `short` of a gallery: it gets the
    /// name of the gallery, the author's name and the files given.
    pub fn update_album_with_new_images(
        &self,
        short: &str,
        gallery: &EhGallery,
        new_file_urls: Vec<String>,
    ) -> (task: AlbumTask)
        ensures
            task.wf(),
            task@ == (AlbumView {
                userhash: self@.userhash,
                title: gallery@.shown_title(),
                description: self@.author_name,
                pages: Seq::empty(),
                files: new_file_urls.deep_view(),
                short: Some(short@),
                phase: AlbumPhase::Creating,
                outbox: None,
            }).editing(0),
    {
        AlbumTask::update(
            self.catbox_uploader(),
            short.to_owned(),
            gallery.title_jp(),
            self.author_name().clone(),
            new_file_urls,
        )
    }

    /// Begins the upload of every image of a gallery to the host and the
    /// making of an album of them.
    pub fn upload_gallery_and_create_album(&self, gallery: &EhGallery) -> (task: AlbumTask)
        ensures
            task.wf(),
            task@ == (AlbumView {
                userhash: self@.userhash,
                title: gallery@.shown_title(),
                description: self@.author_name,
                pages: gallery@.pages,
                files: Seq::empty(),
                short: None,
                phase: AlbumPhase::Resolving,
                outbox: None,
            }).next_page(),
    {
        AlbumTask::upload_and_create(
            self.catbox_uploader(),
            gallery.title_jp(),
            self.author_name().clone(),
            &gallery.pages,
        )
    }
}

} // verus!

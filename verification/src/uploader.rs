//! The sync decision engine: what to do about a gallery that the catalog
//! lists.
//!
//! A gallery that was never announced is uploaded: its detail is fetched, its
//! images pass through the asset pipeline, its article is published and its
//! message is sent, and then the message, the article and a snapshot of the
//! gallery are recorded. A gallery that was announced is looked at again on
//! the days that the stagger schedule gives, and its message is edited where
//! its tags or its title have changed. An article that has gone missing is
//! published again from the images held.
//!
//! The engine does none of the outside work. Each operation is a [`Task`]:
//! the driver takes from it the requests to start ([`Task::poll`]), carries
//! them out, and hands each outcome back ([`ExloliUploader::handle`]), until
//! the task is finished.

use crate::article::{article_html, article_images, gallery_images, render_article};
use crate::catbox::CatboxUploader;
use crate::gallery::{
    gallery_url, parent_view, snapshot_of, source_url, EhGallery, EhGalleryUrl, EhPageUrl,
    GalleryEntity, GalleryEntityView, GalleryUrlView, GalleryView, PageView,
};
use crate::message::{create_message_text, message_text};
use crate::pipeline::{
    bind_known, unknown_pages, AssetPipeline, JobView, PipelineAction, PipelineStatus,
    PipelineView, UploadJob,
};
use crate::schedule::{check_is_due, is_due_on, Date};
use crate::store::{MessageEntity, Store, StoreView};
use crate::tags::{same_tags, tags_eq};
use crate::trans::{EhTagTransDB, TransView};
use vstd::prelude::*;

verus! {

#[derive(Clone, Copy, Debug)]
pub struct Config {
    /// How many images are fetched and re-hosted at a time.
    pub threads_num: usize,
    /// How many of the newest galleries a scan looks at.
    pub search_count: usize,
    /// Whether animated images are left out.
    pub skip_animated: bool,
}

impl Config {
    /// At least one image at a time, and few enough for the queue between
    /// the stages to have a length.
    pub open spec fn valid(self) -> bool {
        1 <= self.threads_num && 2 * self.threads_num <= usize::MAX
    }
}

/// Where an operation failed.
#[derive(Clone, Copy, Debug, PartialEq, Eq, Structural)]
pub enum ErrorKind {
    /// The catalog did not give the detail of the gallery.
    Source,
    /// An image could not be resolved, fetched or re-hosted.
    Asset,
    /// The article could not be published.
    Publish,
    /// The message could not be sent or edited.
    Notification,
    /// The store lacks a row that the operation needs.
    Storage,
    /// An outcome was handed in that the task had not asked for.
    Protocol,
}

/// Outside work that a task asks for.
#[derive(Debug)]
pub enum Request {
    /// Fetch the detail of a gallery from the catalog.
    Fetch(EhGalleryUrl),
    /// Find out where the image of a page can be fetched.
    Resolve(EhPageUrl),
    /// Fetch an image and re-host it.
    Upload(UploadJob),
    /// Publish an article.
    Publish { title: String, html: String },
    /// Send a message, as a reply to another where `reply_to` names one.
    Send { text: String, reply_to: Option<i32> },
    /// Replace the text of a message.
    Edit { message_id: i32, text: String },
    /// Ask for the head of an article, to see whether it is still there.
    Check { url: String },
}

pub enum RequestView {
    Fetch(GalleryUrlView),
    Resolve(PageView),
    Upload(JobView),
    Publish { title: Seq<char>, html: Seq<char> },
    Send { text: Seq<char>, reply_to: Option<i32> },
    Edit { message_id: i32, text: Seq<char> },
    Check { url: Seq<char> },
}

impl View for Request {
    type V = RequestView;

    open spec fn view(&self) -> RequestView {
        match self {
            Request::Fetch(url) => RequestView::Fetch(url@),
            Request::Resolve(page) => RequestView::Resolve(page@),
            Request::Upload(job) => RequestView::Upload(job@),
            Request::Publish { title, html } => RequestView::Publish { title: title@, html: html@ },
            Request::Send { text, reply_to } => RequestView::Send {
                text: text@,
                reply_to: *reply_to,
            },
            Request::Edit { message_id, text } => RequestView::Edit {
                message_id: *message_id,
                text: text@,
            },
            Request::Check { url } => RequestView::Check { url: url@ },
        }
    }
}

pub open spec fn request_view(request: Option<Request>) -> Option<RequestView> {
    match request {
        Some(r) => Some(r@),
        None => None,
    }
}

/// The outcome of outside work.
#[derive(Debug)]
pub enum Reply {
    /// The detail of the gallery.
    Gallery(EhGallery),
    /// Where the image of the page can be fetched, and its index at the catalog.
    Resolved { fileindex: u32, url: String },
    /// Where the image of job `index` was re-hosted.
    Uploaded { index: usize, url: String },
    /// Where the article was published.
    Published { url: String },
    /// The message that was sent, and the day on which it went out.
    Sent { message_id: i32, date: Date },
    /// The message was edited.
    Edited,
    /// The status that the article host answered with.
    Status { code: u16 },
    /// The work failed.
    Failed,
}

pub enum ReplyView {
    Gallery(GalleryView),
    Resolved { fileindex: u32, url: Seq<char> },
    Uploaded { index: usize, url: Seq<char> },
    Published { url: Seq<char> },
    Sent { message_id: i32, date: Date },
    Edited,
    Status { code: u16 },
    Failed,
}

impl View for Reply {
    type V = ReplyView;

    open spec fn view(&self) -> ReplyView {
        match self {
            Reply::Gallery(g) => ReplyView::Gallery(g@),
            Reply::Resolved { fileindex, url } => ReplyView::Resolved {
                fileindex: *fileindex,
                url: url@,
            },
            Reply::Uploaded { index, url } => ReplyView::Uploaded { index: *index, url: url@ },
            Reply::Published { url } => ReplyView::Published { url: url@ },
            Reply::Sent { message_id, date } => ReplyView::Sent {
                message_id: *message_id,
                date: *date,
            },
            Reply::Edited => ReplyView::Edited,
            Reply::Status { code } => ReplyView::Status { code: *code },
            Reply::Failed => ReplyView::Failed,
        }
    }
}

enum State {
    UploadFetch { gallery_id: i32 },
    UploadAssets { gallery: EhGallery, pipeline: AssetPipeline },
    UploadPublish { gallery: EhGallery },
    UploadSend { gallery: EhGallery, article: String },
    UpdateFetch { gallery_id: i32 },
    UpdateEdit { gallery: EhGallery },
    RepublishPublish { snapshot: GalleryEntity, message_id: i32 },
    RepublishEdit { gallery_id: i32, article: String },
    RecheckHead { snapshot: GalleryEntity, message_id: i32 },
    Done,
    Failed(ErrorKind),
}

/// Where an operation stands.
pub enum StateView {
    /// An upload waits for the detail of the gallery.
    UploadFetch { gallery_id: i32 },
    /// An upload has its images in the asset pipeline.
    UploadAssets { gallery: GalleryView, pipeline: PipelineView },
    /// An upload waits for its article.
    UploadPublish { gallery: GalleryView },
    /// An upload waits for its message.
    UploadSend { gallery: GalleryView, article: Seq<char> },
    /// An update waits for the detail of the gallery.
    UpdateFetch { gallery_id: i32 },
    /// An update waits for the message to be edited.
    UpdateEdit { gallery: GalleryView },
    /// A republication waits for the new article.
    RepublishPublish { snapshot: GalleryEntityView, message_id: i32 },
    /// A republication waits for the message to be edited.
    RepublishEdit { gallery_id: i32, article: Seq<char> },
    /// A recheck waits for word of the article.
    RecheckHead { snapshot: GalleryEntityView, message_id: i32 },
    /// The operation is over: it did its work, or there was none to do.
    Done,
    /// The operation is over: it failed.
    Failed(ErrorKind),
}

/// One operation on one gallery.
pub struct Task {
    gallery_id: i32,
    state: State,
    outbox: Option<Request>,
}

pub struct TaskView {
    pub state: StateView,
    /// The request that the driver has not taken yet.
    pub outbox: Option<RequestView>,
}

#[derive(Clone, Copy, Debug, PartialEq, Eq, Structural)]
pub enum TaskStatus {
    Running,
    Done,
    Failed(ErrorKind),
}

impl TaskView {
    pub open spec fn done() -> TaskView {
        TaskView { state: StateView::Done, outbox: None }
    }

    pub open spec fn failed(kind: ErrorKind) -> TaskView {
        TaskView { state: StateView::Failed(kind), outbox: None }
    }

    pub open spec fn status(self) -> TaskStatus {
        match self.state {
            StateView::Done => TaskStatus::Done,
            StateView::Failed(kind) => TaskStatus::Failed(kind),
            _ => TaskStatus::Running,
        }
    }

    /// The task after the driver asked it for a request.
    pub open spec fn polled(self) -> TaskView {
        match self.outbox {
            Some(_) => TaskView { outbox: None, ..self },
            None => match self.state {
                StateView::UploadAssets { gallery, pipeline } => if pipeline.can_resolve() {
                    TaskView {
                        state: StateView::UploadAssets {
                            gallery,
                            pipeline: pipeline.start_resolve(),
                        },
                        ..self
                    }
                } else if pipeline.can_upload() {
                    TaskView {
                        state: StateView::UploadAssets {
                            gallery,
                            pipeline: pipeline.start_upload(),
                        },
                        ..self
                    }
                } else {
                    self
                },
                _ => self,
            },
        }
    }

    /// The request that the driver gets when it asks: the one in the outbox,
    /// or else what the asset pipeline can start.
    pub open spec fn request(self) -> Option<RequestView> {
        match self.outbox {
            Some(r) => Some(r),
            None => match self.state {
                StateView::UploadAssets { gallery, pipeline } => if pipeline.can_resolve() {
                    Some(RequestView::Resolve(pipeline.pending[pipeline.next]))
                } else if pipeline.can_upload() {
                    Some(RequestView::Upload(pipeline.job_of(pipeline.queue[0])))
                } else {
                    None
                },
                _ => None,
            },
        }
    }
}

impl View for Task {
    type V = TaskView;

    closed spec fn view(&self) -> TaskView {
        TaskView {
            state: match self.state {
                State::UploadFetch { gallery_id } => StateView::UploadFetch { gallery_id },
                State::UploadAssets { gallery, pipeline } => StateView::UploadAssets {
                    gallery: gallery@,
                    pipeline: pipeline@,
                },
                State::UploadPublish { gallery } => StateView::UploadPublish { gallery: gallery@ },
                State::UploadSend { gallery, article } => StateView::UploadSend {
                    gallery: gallery@,
                    article: article@,
                },
                State::UpdateFetch { gallery_id } => StateView::UpdateFetch { gallery_id },
                State::UpdateEdit { gallery } => StateView::UpdateEdit { gallery: gallery@ },
                State::RepublishPublish { snapshot, message_id } => StateView::RepublishPublish {
                    snapshot: snapshot@,
                    message_id,
                },
                State::RepublishEdit { gallery_id, article } => StateView::RepublishEdit {
                    gallery_id,
                    article: article@,
                },
                State::RecheckHead { snapshot, message_id } => StateView::RecheckHead {
                    snapshot: snapshot@,
                    message_id,
                },
                State::Done => StateView::Done,
                State::Failed(kind) => StateView::Failed(kind),
            },
            outbox: request_view(self.outbox),
        }
    }
}

impl Task {
    /// The asset pipeline of the task, where it has one, is in order.
    pub closed spec fn wf(&self) -> bool {
        match self.state {
            State::UploadAssets { gallery, pipeline } => pipeline.wf(),
            _ => true,
        }
    }

    /// A well-formed task has a well-formed pipeline.
    pub proof fn lemma_wf(&self)
        requires
            self.wf(),
        ensures
            self@.state matches StateView::UploadAssets { gallery, pipeline } ==> pipeline.wf(),
    {
        match self.state {
            State::UploadAssets { gallery, pipeline } => {
                pipeline.lemma_wf();
            },
            _ => {},
        }
    }

    /// The gallery that the task works on.
    pub closed spec fn id(&self) -> i32 {
        self.gallery_id
    }

    /// The gallery that the task works on: with the status of the task,
    /// it says what failed and for which gallery.
    pub fn gallery_id(&self) -> (id: i32)
        ensures
            id == self.id(),
    {
        self.gallery_id
    }

    pub(crate) fn done(id: i32) -> (task: Task)
        ensures
            task.wf(),
            task.id() == id,
            task@ == TaskView::done(),
    {
        Task { gallery_id: id, state: State::Done, outbox: None }
    }

    fn failed(id: i32, kind: ErrorKind) -> (task: Task)
        ensures
            task.wf(),
            task.id() == id,
            task@ == TaskView::failed(kind),
    {
        Task { gallery_id: id, state: State::Failed(kind), outbox: None }
    }

    /// Whether the task runs, is done or has failed.
    pub fn status(&self) -> (status: TaskStatus)
        ensures
            status == self@.status(),
    {
        match &self.state {
            State::Done => TaskStatus::Done,
            State::Failed(kind) => TaskStatus::Failed(*kind),
            _ => TaskStatus::Running,
        }
    }

    /// The next request for the driver to start, if there is one to start
    /// now. The driver asks again until there is none, then waits for an
    /// outcome of what it has started.
    pub fn poll(&mut self) -> (request: Option<Request>)
        requires
            old(self).wf(),
        ensures
            final(self).wf(),
            final(self).id() == old(self).id(),
            request_view(request) == old(self)@.request(),
            final(self)@ == old(self)@.polled(),
    {
        if self.outbox.is_some() {
            return self.outbox.take();
        }
        let mut state = State::Done;
        core::mem::swap(&mut self.state, &mut state);
        match state {
            State::UploadAssets { gallery, mut pipeline } => {
                let action = pipeline.next_action();
                self.state = State::UploadAssets { gallery, pipeline };
                match action {
                    Some(PipelineAction::Resolve(page)) => Some(Request::Resolve(page)),
                    Some(PipelineAction::Upload(job)) => Some(Request::Upload(job)),
                    None => None,
                }
            },
            other => {
                self.state = other;
                None
            },
        }
    }
}

/// The request to publish the article of a gallery from the images held.
pub open spec fn publish_request(
    store: StoreView,
    gallery_id: i32,
    title: Seq<char>,
    count: int,
    cover: int,
) -> RequestView {
    RequestView::Publish {
        title,
        html: article_html(article_images(store, gallery_id, count, cover)),
    }
}

/// The message to reply to: that of the parent gallery, where the gallery
/// has a parent and the parent was announced.
pub open spec fn reply_target(store: StoreView, parent: Option<GalleryUrlView>) -> Option<i32> {
    match parent {
        Some(p) => if store.messages.dom().contains(p.id) {
            Some(store.messages[p.id].id)
        } else {
            None
        },
        None => None,
    }
}

/// The store after an upload was recorded: the message, the article and
/// the snapshot of the gallery.
pub open spec fn recorded(
    store: StoreView,
    gallery: GalleryView,
    message_id: i32,
    date: Date,
    article: Seq<char>,
) -> StoreView {
    StoreView {
        messages: store.messages.insert(
            gallery.url.id,
            MessageEntity { id: message_id, publish_date: date },
        ),
        telegraphs: store.telegraphs.insert(gallery.url.id, article),
        galleries: store.galleries.insert(gallery.url.id, snapshot_of(gallery)),
        ..store
    }
}

/// The store with the snapshot of a gallery brought up to date.
pub open spec fn refreshed(store: StoreView, gallery: GalleryView) -> StoreView {
    StoreView {
        galleries: store.galleries.insert(gallery.url.id, snapshot_of(gallery)),
        ..store
    }
}

pub struct ExloliUploader {
    config: Config,
    store: Store,
    trans: EhTagTransDB,
    author_name: String,
    catbox_uploader: CatboxUploader,
}

pub struct UploaderView {
    pub config: Config,
    pub store: StoreView,
    pub trans: TransView,
    /// The name that albums are described with.
    pub author_name: Seq<char>,
    /// The account at the image host.
    pub userhash: Seq<char>,
}

impl UploaderView {
    /// A gated upload has nothing to do: the gallery has a snapshot and a message.
    pub open spec fn announced(self, id: i32) -> bool {
        self.store.galleries.dom().contains(id) && self.store.messages.dom().contains(id)
    }

    /// The text of the message for a gallery as the catalog shows it.
    pub open spec fn notice(self, gallery: GalleryView, article: Seq<char>) -> Seq<char> {
        message_text(
            self.trans,
            gallery.tags,
            gallery.shown_title(),
            article,
            source_url(gallery.url.id, gallery.url.token),
        )
    }

    /// The text of the message for a gallery as the store remembers it.
    pub open spec fn notice_of_snapshot(self, gallery: GalleryEntityView, article: Seq<char>) -> Seq<
        char,
    > {
        message_text(
            self.trans,
            gallery.tags,
            gallery.shown_title(),
            article,
            source_url(gallery.id, gallery.token),
        )
    }

    /// The task of an upload that begins.
    pub open spec fn begin_upload(self, url: GalleryUrlView, check: bool) -> TaskView {
        if check && self.announced(url.id) {
            TaskView::done()
        } else {
            TaskView {
                state: StateView::UploadFetch { gallery_id: url.id },
                outbox: Some(RequestView::Fetch(url)),
            }
        }
    }

    /// Whether an update has work to do: the gallery was announced, and
    /// today is a day on which it is looked at.
    pub open spec fn update_is_due(self, id: i32, check: bool, today: Date) -> bool {
        &&& self.announced(id)
        &&& check_is_due(
            today.number() - self.store.messages[id].publish_date.number(),
            today.day() as int,
            check,
        )
    }

    /// The task of an update that begins.
    pub open spec fn begin_update(self, url: GalleryUrlView, check: bool, today: Date) -> TaskView {
        if self.update_is_due(url.id, check, today) {
            TaskView {
                state: StateView::UpdateFetch { gallery_id: url.id },
                outbox: Some(RequestView::Fetch(url)),
            }
        } else {
            TaskView::done()
        }
    }

    /// The task of a recheck that begins: it asks after the article of the
    /// gallery, or for a new one where the store knows of none.
    pub open spec fn begin_recheck(self, gallery: GalleryEntityView, message: MessageEntity) -> TaskView {
        if self.store.telegraphs.dom().contains(gallery.id) {
            TaskView {
                state: StateView::RecheckHead { snapshot: gallery, message_id: message.id },
                outbox: Some(RequestView::Check { url: self.store.telegraphs[gallery.id] }),
            }
        } else {
            self.begin_republish(gallery, message.id)
        }
    }

    /// The task of a republication that begins.
    pub open spec fn begin_republish(self, gallery: GalleryEntityView, message_id: i32) -> TaskView {
        TaskView {
            state: StateView::RepublishPublish { snapshot: gallery, message_id },
            outbox: Some(
                publish_request(
                    self.store,
                    gallery.id,
                    gallery.shown_title(),
                    gallery.pages as int,
                    gallery.cover as int,
                ),
            ),
        }
    }

    /// The task of an upload whose images are all held: it asks for the article.
    pub open spec fn to_publish(store: StoreView, gallery: GalleryView) -> TaskView {
        TaskView {
            state: StateView::UploadPublish { gallery },
            outbox: Some(
                publish_request(
                    store,
                    gallery.url.id,
                    gallery.shown_title(),
                    gallery.pages.len() as int,
                    gallery.cover as int,
                ),
            ),
        }
    }

    /// The task of an upload whose pipeline stands as given: it goes on to
    /// the article once the pipeline is done.
    pub open spec fn with_pipeline(store: StoreView, gallery: GalleryView, pipeline: PipelineView) -> TaskView {
        if pipeline.status() == PipelineStatus::Done {
            Self::to_publish(store, gallery)
        } else {
            TaskView { state: StateView::UploadAssets { gallery, pipeline }, outbox: None }
        }
    }

    /// Whether the message of a gallery must be edited: its tags or its
    /// title are not what the snapshot holds.
    pub open spec fn changed(gallery: GalleryView, snapshot: GalleryEntityView) -> bool {
        !same_tags(gallery.tags, snapshot.tags) || gallery.title != snapshot.title
    }

    /// The store and the task after an outcome was handed in.
    pub open spec fn after(self, task: TaskView, reply: ReplyView) -> (StoreView, TaskView) {
        match task.state {
            StateView::UploadFetch { gallery_id } => match reply {
                ReplyView::Gallery(gallery) => if gallery.url.id != gallery_id {
                    (self.store, TaskView::failed(ErrorKind::Protocol))
                } else {
                    let store = bind_known(self.store, gallery.pages);
                    let pipeline = PipelineView::fresh(
                        unknown_pages(self.store, gallery.pages),
                        self.config.threads_num as int,
                        self.config.skip_animated,
                    );
                    (store, Self::with_pipeline(store, gallery, pipeline))
                },
                ReplyView::Failed => (self.store, TaskView::failed(ErrorKind::Source)),
                _ => (self.store, TaskView::failed(ErrorKind::Protocol)),
            },
            StateView::UploadAssets { gallery, pipeline } => match reply {
                ReplyView::Resolved { fileindex, url } => (
                    self.store,
                    Self::with_pipeline(
                        self.store,
                        gallery,
                        pipeline.after_resolved(fileindex, url),
                    ),
                ),
                ReplyView::Uploaded { index, url } => {
                    let store = pipeline.store_after_uploaded(self.store, index, url);
                    (store, Self::with_pipeline(store, gallery, pipeline.after_uploaded(index)))
                },
                ReplyView::Failed => (self.store, TaskView::failed(ErrorKind::Asset)),
                _ => (self.store, TaskView::failed(ErrorKind::Protocol)),
            },
            StateView::UploadPublish { gallery } => match reply {
                ReplyView::Published { url } => (
                    self.store,
                    TaskView {
                        state: StateView::UploadSend { gallery, article: url },
                        outbox: Some(
                            RequestView::Send {
                                text: self.notice(gallery, url),
                                reply_to: reply_target(self.store, gallery.parent),
                            },
                        ),
                    },
                ),
                ReplyView::Failed => (self.store, TaskView::failed(ErrorKind::Publish)),
                _ => (self.store, TaskView::failed(ErrorKind::Protocol)),
            },
            StateView::UploadSend { gallery, article } => match reply {
                ReplyView::Sent { message_id, date } => (
                    recorded(self.store, gallery, message_id, date, article),
                    TaskView::done(),
                ),
                ReplyView::Failed => (self.store, TaskView::failed(ErrorKind::Notification)),
                _ => (self.store, TaskView::failed(ErrorKind::Protocol)),
            },
            StateView::UpdateFetch { gallery_id } => match reply {
                ReplyView::Gallery(gallery) => if gallery.url.id != gallery_id {
                    (self.store, TaskView::failed(ErrorKind::Protocol))
                } else if !self.announced(gallery_id) {
                    (self.store, TaskView::failed(ErrorKind::Storage))
                } else if !Self::changed(gallery, self.store.galleries[gallery_id]) {
                    (refreshed(self.store, gallery), TaskView::done())
                } else if !self.store.telegraphs.dom().contains(gallery_id) {
                    (self.store, TaskView::failed(ErrorKind::Storage))
                } else {
                    (
                        self.store,
                        TaskView {
                            state: StateView::UpdateEdit { gallery },
                            outbox: Some(
                                RequestView::Edit {
                                    message_id: self.store.messages[gallery_id].id,
                                    text: self.notice(gallery, self.store.telegraphs[gallery_id]),
                                },
                            ),
                        },
                    )
                },
                ReplyView::Failed => (self.store, TaskView::failed(ErrorKind::Source)),
                _ => (self.store, TaskView::failed(ErrorKind::Protocol)),
            },
            StateView::UpdateEdit { gallery } => match reply {
                ReplyView::Edited => (refreshed(self.store, gallery), TaskView::done()),
                ReplyView::Failed => (self.store, TaskView::failed(ErrorKind::Notification)),
                _ => (self.store, TaskView::failed(ErrorKind::Protocol)),
            },
            StateView::RepublishPublish { snapshot, message_id } => match reply {
                ReplyView::Published { url } => (
                    self.store,
                    TaskView {
                        state: StateView::RepublishEdit { gallery_id: snapshot.id, article: url },
                        outbox: Some(
                            RequestView::Edit {
                                message_id,
                                text: self.notice_of_snapshot(snapshot, url),
                            },
                        ),
                    },
                ),
                ReplyView::Failed => (self.store, TaskView::failed(ErrorKind::Publish)),
                _ => (self.store, TaskView::failed(ErrorKind::Protocol)),
            },
            StateView::RepublishEdit { gallery_id, article } => match reply {
                ReplyView::Edited => (
                    StoreView {
                        telegraphs: self.store.telegraphs.insert(gallery_id, article),
                        ..self.store
                    },
                    TaskView::done(),
                ),
                ReplyView::Failed => (self.store, TaskView::failed(ErrorKind::Notification)),
                _ => (self.store, TaskView::failed(ErrorKind::Protocol)),
            },
            StateView::RecheckHead { snapshot, message_id } => match reply {
                ReplyView::Status { code } => if reachable(code) {
                    (self.store, TaskView::done())
                } else {
                    (self.store, self.begin_republish(snapshot, message_id))
                },
                ReplyView::Failed => (self.store, TaskView::failed(ErrorKind::Publish)),
                _ => (self.store, TaskView::failed(ErrorKind::Protocol)),
            },
            StateView::Done => (self.store, task),
            StateView::Failed(_) => (self.store, task),
        }
    }
}

/// Whether an article is still there, going by the status that the host
/// answered a request for its head with: it is unless the host says that
/// there is no such page.
pub open spec fn reachable(code: u16) -> bool {
    code != 404
}

impl View for ExloliUploader {
    type V = UploaderView;

    closed spec fn view(&self) -> UploaderView {
        UploaderView {
            config: self.config,
            store: self.store@,
            trans: self.trans@,
            author_name: self.author_name@,
            userhash: self.catbox_uploader.userhash(),
        }
    }
}

impl ExloliUploader {
    pub closed spec fn wf(&self) -> bool {
        &&& self.config.valid()
        &&& self.store.wf()
        &&& self.trans.wf()
    }

    /// A well-formed engine has a valid configuration and a consistent store.
    pub proof fn lemma_wf(&self)
        requires
            self.wf(),
        ensures
            self@.config.valid(),
            self@.store.consistent(),
    {
        self.store.lemma_consistent();
    }

    /// The engine over a store and a translation table, for the account
    /// `userhash` at the image host; `None` where the configuration asks
    /// for no image at a time, or for more than the queue between the
    /// stages can count.
    pub fn new(
        config: Config,
        store: Store,
        trans: EhTagTransDB,
        author_name: String,
        userhash: &str,
    ) -> (uploader: Option<Self>)
        requires
            store.wf(),
            trans.wf(),
        ensures
            uploader is Some <==> config.valid(),
            uploader matches Some(u) ==> u.wf() && u@ == (UploaderView {
                config,
                store: store@,
                trans: trans@,
                author_name: author_name@,
                userhash: userhash@,
            }),
    {
        if config.threads_num >= 1 && config.threads_num <= usize::MAX / 2 {
            Some(
                ExloliUploader {
                    config,
                    store,
                    trans,
                    author_name,
                    catbox_uploader: CatboxUploader::new(userhash),
                },
            )
        } else {
            None
        }
    }

    /// The forms for the image host.
    pub fn catbox_uploader(&self) -> (catbox: &CatboxUploader)
        ensures
            catbox.userhash() == self@.userhash,
    {
        &self.catbox_uploader
    }

    /// The name that albums are described with.
    pub fn author_name(&self) -> (name: &String)
        ensures
            name@ == self@.author_name,
    {
        &self.author_name
    }

    /// The store that the engine works on.
    pub fn store(&self) -> (store: &Store)
        requires
            self.wf(),
        ensures
            store.wf(),
            store@ == self@.store,
    {
        &self.store
    }

    pub fn config(&self) -> (config: Config)
        ensures
            config == self@.config,
    {
        self.config
    }

    fn publish_request(&self, gallery_id: i32, title: String, count: usize, cover: usize) -> (request:
        Request)
        requires
            self.wf(),
        ensures
            request@ == publish_request(self@.store, gallery_id, title@, count as int, cover as int),
    {
        let images: Vec<String> = gallery_images(&self.store, gallery_id, count, cover);
        Request::Publish { title, html: render_article(&images) }
    }

    fn to_publish(&self, id: i32, gallery: EhGallery) -> (task: Task)
        requires
            self.wf(),
        ensures
            task.wf(),
            task.id() == id,
            task@ == UploaderView::to_publish(self@.store, gallery@),
    {
        let request = self.publish_request(
            gallery.url.id,
            gallery.title_jp(),
            gallery.pages.len(),
            gallery.cover,
        );
        proof {
            assert(gallery@.pages.len() == gallery.pages@.len());
        }
        Task { gallery_id: id, state: State::UploadPublish { gallery }, outbox: Some(request) }
    }

    fn with_pipeline(&self, id: i32, gallery: EhGallery, pipeline: AssetPipeline) -> (task: Task)
        requires
            self.wf(),
            pipeline.wf(),
        ensures
            task.wf(),
            task.id() == id,
            task@ == UploaderView::with_pipeline(self@.store, gallery@, pipeline@),
    {
        if pipeline.status() == PipelineStatus::Done {
            self.to_publish(id, gallery)
        } else {
            Task { gallery_id: id, state: State::UploadAssets { gallery, pipeline }, outbox: None }
        }
    }

    fn notice(&self, gallery: &EhGallery, article: &String) -> (text: String)
        requires
            self.wf(),
        ensures
            text@ == self@.notice(gallery@, article@),
    {
        let title: String = gallery.title_jp();
        let source: String = gallery_url(gallery.url.id, &gallery.url.token);
        create_message_text(
            &self.trans,
            &gallery.tags,
            title.as_str(),
            article.as_str(),
            source.as_str(),
        )
    }

    fn reply_target(&self, parent: &Option<EhGalleryUrl>) -> (target: Option<i32>)
        requires
            self.wf(),
        ensures
            target == reply_target(self@.store, parent_view(*parent)),
    {
        match parent {
            Some(p) => match self.store.message(p.id) {
                Some(message) => Some(message.id),
                None => None,
            },
            None => None,
        }
    }

    /// Begins the upload of a gallery. With `check` set, a gallery that has
    /// a snapshot and a message is left alone: the task is done at once.
    pub fn try_upload(&self, gallery: &EhGalleryUrl, check: bool) -> (task: Task)
        requires
            self.wf(),
        ensures
            task.wf(),
            task.id() == gallery@.id,
            task@ == self@.begin_upload(gallery@, check),
    {
        let id: i32 = gallery.id;
        if check && self.store.has_gallery(gallery.id) && self.store.message(
            gallery.id,
        ).is_some() {
            Task::done(id)
        } else {
            Task {
                gallery_id: id,
                state: State::UploadFetch { gallery_id: id },
                outbox: Some(Request::Fetch(gallery.duplicate())),
            }
        }
    }

    /// Begins the update of a gallery on the day `today`. A gallery that was
    /// not announced is left alone, and with `check` set so is one whose
    /// turn it is not today.
    pub fn try_update(&self, gallery: &EhGalleryUrl, check: bool, today: &Date) -> (task: Task)
        requires
            self.wf(),
        ensures
            task.wf(),
            task.id() == gallery@.id,
            task@ == self@.begin_update(gallery@, check, *today),
    {
        let id: i32 = gallery.id;
        if !self.store.has_gallery(gallery.id) {
            return Task::done(id);
        }
        match self.store.message(gallery.id) {
            Some(message) => {
                if is_due_on(today, &message.publish_date, check) {
                    Task {
                        gallery_id: id,
                        state: State::UpdateFetch { gallery_id: gallery.id },
                        outbox: Some(Request::Fetch(gallery.duplicate())),
                    }
                } else {
                    Task::done(id)
                }
            },
            None => Task::done(id),
        }
    }

    /// Whether an article is still there, going by the status that the
    /// host answered a request for its head with.
    pub fn check_telegraph(code: u16) -> (there: bool)
        ensures
            there == reachable(code),
    {
        code != 404
    }

    /// Begins the recheck of the article of a gallery whose message is
    /// `msg`: the host is asked whether the article is still there, and
    /// the article is published again where it is not.
    pub fn recheck(&self, gallery: &GalleryEntity, msg: &MessageEntity) -> (task: Task)
        requires
            self.wf(),
        ensures
            task.wf(),
            task.id() == gallery@.id,
            task@ == self@.begin_recheck(gallery@, *msg),
    {
        let id: i32 = gallery.id;
        match self.store.telegraph(gallery.id) {
            Some(url) => Task {
                gallery_id: id,
                state: State::RecheckHead { snapshot: gallery.duplicate(), message_id: msg.id },
                outbox: Some(Request::Check { url: url.clone() }),
            },
            None => self.republish_for(id, gallery, msg.id),
        }
    }

    fn republish_for(&self, id: i32, gallery: &GalleryEntity, message_id: i32) -> (task: Task)
        requires
            self.wf(),
        ensures
            task.wf(),
            task.id() == id,
            task@ == self@.begin_republish(gallery@, message_id),
    {
        let request = self.publish_request(
            gallery.id,
            gallery.title_jp(),
            gallery.pages,
            gallery.cover,
        );
        Task {
            gallery_id: id,
            state: State::RepublishPublish { snapshot: gallery.duplicate(), message_id },
            outbox: Some(request),
        }
    }

    /// Begins the republication of the article of a gallery whose message
    /// is `msg`: the article is made again from the images held, no image
    /// is fetched.
    pub fn republish(&self, gallery: &GalleryEntity, msg: &MessageEntity) -> (task: Task)
        requires
            self.wf(),
        ensures
            task.wf(),
            task.id() == gallery@.id,
            task@ == self@.begin_republish(gallery@, msg.id),
    {
        self.republish_for(gallery.id, gallery, msg.id)
    }

    /// Takes the outcome of a request and moves the task on. A task that is
    /// over stays as it is.
    pub fn handle(&mut self, task: Task, reply: Reply) -> (next: Task)
        requires
            old(self).wf(),
            task.wf(),
        ensures
            final(self).wf(),
            next.wf(),
            next.id() == task.id(),
            final(self)@ == (UploaderView { store: final(self)@.store, ..old(self)@ }),
            (final(self)@.store, next@) == old(self)@.after(task@, reply@),
            final(self)@.store.extends(old(self)@.store),
    {
        let id: i32 = task.gallery_id;
        match task.state {
            State::UploadFetch { gallery_id } => match reply {
                Reply::Gallery(gallery) => {
                    if gallery.url.id != gallery_id {
                        return Task::failed(id, ErrorKind::Protocol);
                    }
                    let pipeline = AssetPipeline::start(
                        &mut self.store,
                        &gallery.pages,
                        self.config.threads_num,
                        self.config.skip_animated,
                    );
                    self.with_pipeline(id, gallery, pipeline)
                },
                Reply::Failed => Task::failed(id, ErrorKind::Source),
                _ => Task::failed(id, ErrorKind::Protocol),
            },
            State::UploadAssets { gallery, mut pipeline } => match reply {
                Reply::Resolved { fileindex, url } => {
                    pipeline.resolved(fileindex, url);
                    self.with_pipeline(id, gallery, pipeline)
                },
                Reply::Uploaded { index, url } => {
                    pipeline.uploaded(&mut self.store, index, url);
                    self.with_pipeline(id, gallery, pipeline)
                },
                Reply::Failed => Task::failed(id, ErrorKind::Asset),
                _ => Task::failed(id, ErrorKind::Protocol),
            },
            State::UploadPublish { gallery } => match reply {
                Reply::Published { url } => {
                    let text: String = self.notice(&gallery, &url);
                    let reply_to: Option<i32> = self.reply_target(&gallery.parent);
                    Task {
                        gallery_id: id,
                        state: State::UploadSend { gallery, article: url },
                        outbox: Some(Request::Send { text, reply_to }),
                    }
                },
                Reply::Failed => Task::failed(id, ErrorKind::Publish),
                _ => Task::failed(id, ErrorKind::Protocol),
            },
            State::UploadSend { gallery, article } => match reply {
                Reply::Sent { message_id, date } => {
                    self.store.put_message(
                        gallery.url.id,
                        MessageEntity { id: message_id, publish_date: date },
                    );
                    self.store.put_telegraph(gallery.url.id, article);
                    self.store.put_gallery(GalleryEntity::of(&gallery));
                    Task::done(id)
                },
                Reply::Failed => Task::failed(id, ErrorKind::Notification),
                _ => Task::failed(id, ErrorKind::Protocol),
            },
            State::UpdateFetch { gallery_id } => match reply {
                Reply::Gallery(gallery) => self.compare(id, gallery_id, gallery),
                Reply::Failed => Task::failed(id, ErrorKind::Source),
                _ => Task::failed(id, ErrorKind::Protocol),
            },
            State::UpdateEdit { gallery } => match reply {
                Reply::Edited => {
                    self.store.put_gallery(GalleryEntity::of(&gallery));
                    Task::done(id)
                },
                Reply::Failed => Task::failed(id, ErrorKind::Notification),
                _ => Task::failed(id, ErrorKind::Protocol),
            },
            State::RepublishPublish { snapshot, message_id } => match reply {
                Reply::Published { url } => {
                    let title: String = snapshot.title_jp();
                    let source: String = gallery_url(snapshot.id, &snapshot.token);
                    let text: String = create_message_text(
                        &self.trans,
                        &snapshot.tags,
                        title.as_str(),
                        url.as_str(),
                        source.as_str(),
                    );
                    Task {
                        gallery_id: id,
                        state: State::RepublishEdit { gallery_id: snapshot.id, article: url },
                        outbox: Some(Request::Edit { message_id, text }),
                    }
                },
                Reply::Failed => Task::failed(id, ErrorKind::Publish),
                _ => Task::failed(id, ErrorKind::Protocol),
            },
            State::RepublishEdit { gallery_id, article } => match reply {
                Reply::Edited => {
                    self.store.put_telegraph(gallery_id, article);
                    Task::done(id)
                },
                Reply::Failed => Task::failed(id, ErrorKind::Notification),
                _ => Task::failed(id, ErrorKind::Protocol),
            },
            State::RecheckHead { snapshot, message_id } => match reply {
                Reply::Status { code } => {
                    if Self::check_telegraph(code) {
                        Task::done(id)
                    } else {
                        self.republish_for(id, &snapshot, message_id)
                    }
                },
                Reply::Failed => Task::failed(id, ErrorKind::Publish),
                _ => Task::failed(id, ErrorKind::Protocol),
            },
            State::Done => Task { gallery_id: id, state: State::Done, outbox: task.outbox },
            State::Failed(kind) => Task {
                gallery_id: id,
                state: State::Failed(kind),
                outbox: task.outbox,
            },
        }
    }

    /// Holds the detail that the catalog now shows of an announced gallery
    /// against its snapshot: where the tags or the title differ, the
    /// message is to be edited; where they do not, the snapshot is brought
    /// up to date and the update is done.
    fn compare(&mut self, id: i32, gallery_id: i32, gallery: EhGallery) -> (next: Task)
        requires
            old(self).wf(),
        ensures
            final(self).wf(),
            next.wf(),
            next.id() == id,
            final(self)@ == (UploaderView { store: final(self)@.store, ..old(self)@ }),
            (final(self)@.store, next@) == old(self)@.after(
                TaskView { state: StateView::UpdateFetch { gallery_id }, outbox: None },
                ReplyView::Gallery(gallery@),
            ),
            final(self)@.store.extends(old(self)@.store),
    {
        if gallery.url.id != gallery_id {
            return Task::failed(id, ErrorKind::Protocol);
        }
        let message: MessageEntity = match self.store.message(gallery_id) {
            Some(message) => message,
            None => {
                return Task::failed(id, ErrorKind::Storage);
            },
        };
        let changed: bool = match self.store.gallery(gallery_id) {
            Some(snapshot) => !tags_eq(&gallery.tags, &snapshot.tags) || gallery.title
                != snapshot.title,
            None => {
                return Task::failed(id, ErrorKind::Storage);
            },
        };
        if !changed {
            self.store.put_gallery(GalleryEntity::of(&gallery));
            return Task::done(id);
        }
        let text: String = match self.store.telegraph(gallery_id) {
            Some(article) => self.notice(&gallery, article),
            None => {
                return Task::failed(id, ErrorKind::Storage);
            },
        };
        Task {
            gallery_id: id,
            state: State::UpdateEdit { gallery },
            outbox: Some(Request::Edit { message_id: message.id, text }),
        }
    }
}

} // verus!

//! What holds of every run of the engine, whatever the outside world
//! answers.

use crate::gallery::{snapshot_of, GalleryUrlView, GalleryView, PageView};
use crate::pipeline::{
    lemma_accounted_in_later_store, lemma_bind_known_extends, lemma_done_all_filled, lemma_finish_resolve, lemma_finish_upload,
    lemma_known_pages_filled, lemma_start_resolve, lemma_start_upload, lemma_unknown_pages,
    unknown_pages, PipelineStatus, PipelineView,
};
use crate::schedule::{seed_of_age, Date};
use crate::store::{MessageEntity, StoreView};
use crate::uploader::{
    recorded, reply_target, Config, ErrorKind, ReplyView, RequestView, StateView, TaskStatus,
    TaskView, UploaderView,
};
use vstd::prelude::*;

verus! {

/// Every page of `pages` is filled in `store`.
pub open spec fn all_bound(store: StoreView, pages: Seq<PageView>) -> bool {
    forall|i: int|
        0 <= i < pages.len() ==> store.bound((#[trigger] pages[i]).gallery_id, pages[i].page)
}

/// The task and the store fit together: while the images of an upload are
/// in the pipeline, every page of the gallery is filled or still to fetch,
/// and every page that has left the pipeline is accounted for; once the
/// upload has moved on to its article, every page is filled, unless
/// animated images are left out.
pub open spec fn sound(task: TaskView, store: StoreView, config: Config) -> bool {
    match task.state {
        StateView::UploadAssets { gallery, pipeline } => {
            &&& pipeline.wf()
            &&& pipeline.accounted(store)
            &&& pipeline.skip_animated == config.skip_animated
            &&& (!pipeline.skip_animated ==> pipeline.skipped.len() == 0)
            &&& forall|i: int|
                0 <= i < gallery.pages.len() ==> store.bound(
                    (#[trigger] gallery.pages[i]).gallery_id,
                    gallery.pages[i].page,
                ) || pipeline.pending.contains(gallery.pages[i])
        },
        StateView::UploadPublish { gallery } => config.skip_animated || all_bound(
            store,
            gallery.pages,
        ),
        StateView::UploadSend { gallery, article } => config.skip_animated || all_bound(
            store,
            gallery.pages,
        ),
        _ => true,
    }
}

/// A task that begins fits every store.
pub proof fn lemma_begin_is_sound(
    u: UploaderView,
    url: GalleryUrlView,
    check: bool,
    today: Date,
)
    ensures
        sound(u.begin_upload(url, check), u.store, u.config),
        sound(u.begin_update(url, check, today), u.store, u.config),
{
}

proof fn lemma_with_pipeline_sound(
    store: StoreView,
    config: Config,
    gallery: GalleryView,
    pipeline: PipelineView,
)
    requires
        pipeline.status() != PipelineStatus::Failed,
        sound(
            TaskView { state: StateView::UploadAssets { gallery, pipeline }, outbox: None },
            store,
            config,
        ),
    ensures
        sound(UploaderView::with_pipeline(store, gallery, pipeline), store, config),
{
    if pipeline.status() == PipelineStatus::Done {
        lemma_done_all_filled(pipeline, store);
        if !config.skip_animated {
            assert forall|i: int| 0 <= i < gallery.pages.len() implies store.bound(
                (#[trigger] gallery.pages[i]).gallery_id,
                gallery.pages[i].page,
            ) by {
                if pipeline.pending.contains(gallery.pages[i]) {
                    let k = choose|k: int|
                        0 <= k < pipeline.pending.len() && pipeline.pending[k] == gallery.pages[i];
                    assert(store.bound(pipeline.pending[k].gallery_id, pipeline.pending[k].page));
                }
            }
        }
    }
}

/// The outcome is one that can be handed in: a gallery in it has no more
/// pages than a list holds.
pub open spec fn fits(reply: ReplyView) -> bool {
    reply matches ReplyView::Gallery(gallery) ==> gallery.pages.len() <= usize::MAX
}

/// Handing in an outcome keeps the task and the store fitting together.
pub proof fn lemma_handle_keeps_sound(u: UploaderView, task: TaskView, reply: ReplyView)
    requires
        u.config.valid(),
        fits(reply),
        sound(task, u.store, u.config),
    ensures
        sound(u.after(task, reply).1, u.after(task, reply).0, u.config),
{
    let (store, next) = u.after(task, reply);
    match task.state {
        StateView::UploadFetch { gallery_id } => match reply {
            ReplyView::Gallery(gallery) => if gallery.url.id == gallery_id {
                let pipeline = PipelineView::fresh(
                    unknown_pages(u.store, gallery.pages),
                    u.config.threads_num as int,
                    u.config.skip_animated,
                );
                lemma_unknown_pages(u.store, gallery.pages);
                lemma_bind_known_extends(u.store, gallery.pages);
                assert forall|i: int| 0 <= i < gallery.pages.len() implies store.bound(
                    (#[trigger] gallery.pages[i]).gallery_id,
                    gallery.pages[i].page,
                ) || pipeline.pending.contains(gallery.pages[i]) by {
                    if u.store.images.dom().contains(gallery.pages[i].hash) {
                        lemma_known_pages_filled(u.store, gallery.pages, i);
                    }
                }
                assert(pipeline.accounted(store)) by {
                    assert forall|i: int| #[trigger] pipeline.settled(i) implies store.bound(
                        pipeline.pending[i].gallery_id,
                        pipeline.pending[i].page,
                    ) || pipeline.skipped.contains(i as usize) by {}
                }
                lemma_with_pipeline_sound(store, u.config, gallery, pipeline);
            },
            _ => {},
        },
        StateView::UploadAssets { gallery, pipeline } => match reply {
            ReplyView::Resolved { fileindex, url } => {
                let after = pipeline.after_resolved(fileindex, url);
                if pipeline.expects_resolved() {
                    lemma_finish_resolve(pipeline, fileindex, url);
                    if !pipeline.skip_animated {
                        assert(after.skipped == pipeline.skipped);
                    }
                }
                if after.status() == PipelineStatus::Failed {
                    assert(pipeline.failed);
                    assert(after == pipeline);
                    assert(next == TaskView {
                        state: StateView::UploadAssets { gallery, pipeline },
                        outbox: None,
                    });
                } else {
                    lemma_with_pipeline_sound(store, u.config, gallery, after);
                }
            },
            ReplyView::Uploaded { index, url } => {
                let after = pipeline.after_uploaded(index);
                if pipeline.expects_uploaded(index) {
                    lemma_finish_upload(pipeline, index);
                    assert(store == pipeline.store_after_uploaded(u.store, index, url));
                    assert(store.extends(u.store));
                    assert forall|i: int| 0 <= i < gallery.pages.len() implies store.bound(
                        (#[trigger] gallery.pages[i]).gallery_id,
                        gallery.pages[i].page,
                    ) || after.pending.contains(gallery.pages[i]) by {
                        let key = (gallery.pages[i].gallery_id, gallery.pages[i].page);
                        if u.store.pages.dom().contains(key) {
                            assert(store.pages.dom().contains(key));
                        }
                    }
                }
                if after.status() == PipelineStatus::Failed {
                    assert(pipeline.failed);
                    assert(after == pipeline);
                    assert(next == TaskView {
                        state: StateView::UploadAssets { gallery, pipeline },
                        outbox: None,
                    });
                } else {
                    lemma_with_pipeline_sound(store, u.config, gallery, after);
                }
            },
            _ => {},
        },
        StateView::UploadPublish { gallery } => {},
        StateView::UploadSend { gallery, article } => {},
        _ => {},
    }
}

/// Asking a task for a request keeps it fitting the store.
pub proof fn lemma_poll_keeps_sound(task: TaskView, store: StoreView, config: Config)
    requires
        sound(task, store, config),
    ensures
        sound(task.polled(), store, config),
{
    match task.state {
        StateView::UploadAssets { gallery, pipeline } => {
            if task.outbox is None {
                if pipeline.can_resolve() {
                    lemma_start_resolve(pipeline);
                } else if pipeline.can_upload() {
                    lemma_start_upload(pipeline);
                }
            }
        },
        _ => {},
    }
}

/// A task that fits a store fits every store that has gained rows since.
pub proof fn lemma_sound_in_later_store(
    task: TaskView,
    earlier: StoreView,
    later: StoreView,
    config: Config,
)
    requires
        sound(task, earlier, config),
        later.extends(earlier),
    ensures
        sound(task, later, config),
{
    match task.state {
        StateView::UploadAssets { gallery, pipeline } => {
            lemma_accounted_in_later_store(pipeline, earlier, later);
            assert forall|i: int| 0 <= i < gallery.pages.len() implies later.bound(
                (#[trigger] gallery.pages[i]).gallery_id,
                gallery.pages[i].page,
            ) || pipeline.pending.contains(gallery.pages[i]) by {
                let key = (gallery.pages[i].gallery_id, gallery.pages[i].page);
                if earlier.pages.dom().contains(key) {
                    assert(later.pages.dom().contains(key));
                }
            }
        },
        StateView::UploadPublish { gallery } => {
            if !config.skip_animated {
                assert forall|i: int| 0 <= i < gallery.pages.len() implies later.bound(
                    (#[trigger] gallery.pages[i]).gallery_id,
                    gallery.pages[i].page,
                ) by {
                    let key = (gallery.pages[i].gallery_id, gallery.pages[i].page);
                    assert(earlier.pages.dom().contains(key));
                    assert(later.pages.dom().contains(key));
                }
            }
        },
        StateView::UploadSend { gallery, article } => {
            if !config.skip_animated {
                assert forall|i: int| 0 <= i < gallery.pages.len() implies later.bound(
                    (#[trigger] gallery.pages[i]).gallery_id,
                    gallery.pages[i].page,
                ) by {
                    let key = (gallery.pages[i].gallery_id, gallery.pages[i].page);
                    assert(earlier.pages.dom().contains(key));
                    assert(later.pages.dom().contains(key));
                }
            }
        },
        _ => {},
    }
}

/// No outcome makes the store lose a row: whatever is handed in, every
/// image and page stays as it was, and every gallery, message and article
/// keeps a row. A failure in particular rolls nothing back.
pub proof fn lemma_nothing_is_lost(u: UploaderView, task: TaskView, reply: ReplyView)
    ensures
        u.after(task, reply).0.extends(u.store),
        reply is Failed ==> u.after(task, reply).0 == u.store,
{
    match task.state {
        StateView::UploadFetch { gallery_id } => match reply {
            ReplyView::Gallery(gallery) => {
                lemma_bind_known_extends(u.store, gallery.pages);
            },
            _ => {},
        },
        _ => {},
    }
}

/// A failure ends the task: a running task that is told of a failure has
/// failed, asks for nothing more, and stays failed whatever is handed in
/// afterwards, with the store as it was.
pub proof fn lemma_failure_ends_the_task(u: UploaderView, task: TaskView, later: ReplyView)
    requires
        task.status() == TaskStatus::Running,
    ensures
        u.after(task, ReplyView::Failed).0 == u.store,
        u.after(task, ReplyView::Failed).1.status() is Failed,
        u.after(task, ReplyView::Failed).1.request() is None,
        u.after(task, ReplyView::Failed).1.polled() == u.after(task, ReplyView::Failed).1,
        u.after(u.after(task, ReplyView::Failed).1, later) == (
            u.store,
            u.after(task, ReplyView::Failed).1,
        ),
        task.state is UploadAssets ==> u.after(task, ReplyView::Failed).1 == TaskView::failed(
            ErrorKind::Asset,
        ),
{
}

/// An upload that is recorded has announced its gallery: the store holds
/// its message, its article and its snapshot, and the snapshot shows the
/// tags and the title that the catalog gave. Unless animated images are
/// left out, every page of the gallery is filled.
pub proof fn lemma_upload_is_recorded(
    u: UploaderView,
    gallery: GalleryView,
    article: Seq<char>,
    message_id: i32,
    date: Date,
)
    requires
        sound(
            TaskView { state: StateView::UploadSend { gallery, article }, outbox: None },
            u.store,
            u.config,
        ),
    ensures
        ({
            let task = TaskView { state: StateView::UploadSend { gallery, article }, outbox: None };
            let (store, next) = u.after(task, ReplyView::Sent { message_id, date });
            &&& next == TaskView::done()
            &&& store == recorded(u.store, gallery, message_id, date, article)
            &&& store.messages[gallery.url.id] == (MessageEntity {
                id: message_id,
                publish_date: date,
            })
            &&& store.telegraphs[gallery.url.id] == article
            &&& store.galleries[gallery.url.id] == snapshot_of(gallery)
            &&& store.galleries[gallery.url.id].tags == gallery.tags
            &&& store.galleries[gallery.url.id].title == gallery.title
            &&& store.images == u.store.images
            &&& store.pages == u.store.pages
            &&& (UploaderView { store, ..u }).announced(gallery.url.id)
            &&& (!u.config.skip_animated ==> all_bound(store, gallery.pages))
        }),
{
}

/// A gated upload of a gallery that was announced does nothing: the task
/// is done at once, asks for nothing, and leaves the store as it is
/// whatever is handed to it. So a second gated upload after a recorded one
/// sends no second message and publishes no second article.
pub proof fn lemma_gated_upload_is_idempotent(
    u: UploaderView,
    gallery: GalleryView,
    article: Seq<char>,
    message_id: i32,
    date: Date,
    later: ReplyView,
)
    ensures
        ({
            let store = recorded(u.store, gallery, message_id, date, article);
            let second = UploaderView { store, ..u };
            let task = second.begin_upload(gallery.url, true);
            &&& task == TaskView::done()
            &&& task.request() is None
            &&& task.polled() == task
            &&& second.after(task, later) == (store, task)
        }),
{
}

/// An upload that is not gated runs even for a gallery that was announced.
pub proof fn lemma_ungated_upload_runs(u: UploaderView, url: GalleryUrlView)
    ensures
        u.begin_upload(url, false).state is UploadFetch,
        u.begin_upload(url, false).request() == Some(RequestView::Fetch(url)),
{
}

/// The message of a gallery is sent as a reply to the message of its
/// parent exactly when the gallery has a parent that was announced.
pub proof fn lemma_reply_goes_to_parent(
    u: UploaderView,
    gallery: GalleryView,
    article: Seq<char>,
)
    ensures
        ({
            let task = TaskView { state: StateView::UploadPublish { gallery }, outbox: None };
            let next = u.after(task, ReplyView::Published { url: article }).1;
            &&& next.outbox == Some(
                RequestView::Send {
                    text: u.notice(gallery, article),
                    reply_to: reply_target(u.store, gallery.parent),
                },
            )
            &&& (gallery.parent is Some && u.store.messages.dom().contains(
                gallery.parent.unwrap().id,
            ) ==> reply_target(u.store, gallery.parent) == Some(
                u.store.messages[gallery.parent.unwrap().id].id,
            ))
            &&& (gallery.parent is None ==> reply_target(u.store, gallery.parent) is None)
            &&& (gallery.parent is Some && !u.store.messages.dom().contains(
                gallery.parent.unwrap().id,
            ) ==> reply_target(u.store, gallery.parent) is None)
        }),
{
}

/// A gated update of an announced gallery runs exactly on the days of the
/// month that the stagger seed of its message divides; an update that is
/// not gated always runs; a gallery that was not announced is never updated.
pub proof fn lemma_update_follows_the_schedule(
    u: UploaderView,
    url: GalleryUrlView,
    today: Date,
)
    ensures
        !u.announced(url.id) ==> u.begin_update(url, true, today) == TaskView::done()
            && u.begin_update(url, false, today) == TaskView::done(),
        u.announced(url.id) ==> u.begin_update(url, false, today).state is UpdateFetch,
        u.announced(url.id) ==> (u.begin_update(url, true, today).state is UpdateFetch
            <==> today.day() as int % seed_of_age(
            today.number() - u.store.messages[url.id].publish_date.number(),
        ) == 0),
{
}

/// An update edits the message exactly when the tags or the title have
/// changed, and brings the snapshot up to date in either case, once the
/// edit has gone through where there is one.
pub proof fn lemma_update_refreshes_the_snapshot(u: UploaderView, gallery: GalleryView)
    requires
        u.announced(gallery.url.id),
        u.store.telegraphs.dom().contains(gallery.url.id),
    ensures
        ({
            let id = gallery.url.id;
            let task = TaskView { state: StateView::UpdateFetch { gallery_id: id }, outbox: None };
            let (store, next) = u.after(task, ReplyView::Gallery(gallery));
            let changed = UploaderView::changed(gallery, u.store.galleries[id]);
            &&& (!changed ==> next == TaskView::done() && store.galleries[id] == snapshot_of(
                gallery,
            ))
            &&& (changed ==> store == u.store && next.outbox == Some(
                RequestView::Edit {
                    message_id: u.store.messages[id].id,
                    text: u.notice(gallery, u.store.telegraphs[id]),
                },
            ) && (UploaderView { store, ..u }).after(next, ReplyView::Edited).0.galleries[id]
                == snapshot_of(gallery) && (UploaderView { store, ..u }).after(
                next,
                ReplyView::Edited,
            ).0.telegraphs == u.store.telegraphs)
        }),
{
}

/// What a driver does to a task: it asks it for a request, or it hands it
/// an outcome.
pub enum Step {
    Poll,
    Handle(ReplyView),
}

/// The store and the task after the driver has taken the given steps, in
/// their order.
pub open spec fn run(u: UploaderView, task: TaskView, steps: Seq<Step>) -> (StoreView, TaskView)
    decreases steps.len(),
{
    if steps.len() == 0 {
        (u.store, task)
    } else {
        let (store, before) = run(u, task, steps.drop_last());
        match steps.last() {
            Step::Poll => (store, before.polled()),
            Step::Handle(reply) => (UploaderView { store, ..u }).after(before, reply),
        }
    }
}

/// Every outcome among the steps is one that can be handed in.
pub open spec fn all_fit(steps: Seq<Step>) -> bool {
    forall|i: int|
        0 <= i < steps.len() ==> ((#[trigger] steps[i]) matches Step::Handle(reply) ==> fits(reply))
}

/// An upload of gallery `id` is where it should be: while it runs it is
/// about that gallery, and when it is done the gallery is announced.
pub open spec fn on_course(task: TaskView, store: StoreView, id: i32) -> bool {
    match task.state {
        StateView::UploadFetch { gallery_id } => gallery_id == id,
        StateView::UploadAssets { gallery, pipeline } => gallery.url.id == id,
        StateView::UploadPublish { gallery } => gallery.url.id == id,
        StateView::UploadSend { gallery, article } => gallery.url.id == id,
        StateView::Done => store.galleries.dom().contains(id) && store.messages.dom().contains(id),
        StateView::Failed(_) => true,
        _ => false,
    }
}

/// A store that keeps what a store keeps that keeps what a third holds,
/// keeps what the third holds.
pub proof fn lemma_extends_is_transitive(later: StoreView, middle: StoreView, earlier: StoreView)
    requires
        later.extends(middle),
        middle.extends(earlier),
    ensures
        later.extends(earlier),
{
    vstd::map_lib::lemma_submap_of_trans(earlier.images, middle.images, later.images);
    vstd::map_lib::lemma_submap_of_trans(earlier.pages, middle.pages, later.pages);
}

/// Handing an outcome to an upload keeps it on its course.
pub proof fn lemma_handle_keeps_course(u: UploaderView, task: TaskView, reply: ReplyView, id: i32)
    requires
        on_course(task, u.store, id),
    ensures
        on_course(u.after(task, reply).1, u.after(task, reply).0, id),
{
}

/// Asking an upload for a request keeps it on its course.
pub proof fn lemma_poll_keeps_course(task: TaskView, store: StoreView, id: i32)
    requires
        on_course(task, store, id),
    ensures
        on_course(task.polled(), store, id),
{
}

/// Whatever the driver does and whatever the outside world answers, in
/// whatever order: the store loses no row, the task and the store fit
/// together, and an upload that has run to its end has left its gallery
/// with a snapshot and a message.
pub proof fn lemma_every_upload_run(
    u: UploaderView,
    url: GalleryUrlView,
    check: bool,
    steps: Seq<Step>,
)
    requires
        u.config.valid(),
        all_fit(steps),
    ensures
        run(u, u.begin_upload(url, check), steps).0.extends(u.store),
        sound(
            run(u, u.begin_upload(url, check), steps).1,
            run(u, u.begin_upload(url, check), steps).0,
            u.config,
        ),
        on_course(
            run(u, u.begin_upload(url, check), steps).1,
            run(u, u.begin_upload(url, check), steps).0,
            url.id,
        ),
        run(u, u.begin_upload(url, check), steps).1.status() == TaskStatus::Done ==> (UploaderView {
            store: run(u, u.begin_upload(url, check), steps).0,
            ..u
        }).announced(url.id),
    decreases steps.len(),
{
    let start = u.begin_upload(url, check);
    if steps.len() > 0 {
        let earlier = steps.drop_last();
        assert forall|i: int| 0 <= i < earlier.len() implies ((#[trigger] earlier[i]) matches Step::Handle(
            reply,
        ) ==> fits(reply)) by {
            assert(earlier[i] == steps[i]);
        }
        lemma_every_upload_run(u, url, check, earlier);
        let (store, before) = run(u, start, earlier);
        match steps.last() {
            Step::Poll => {
                lemma_poll_keeps_sound(before, store, u.config);
                lemma_poll_keeps_course(before, store, url.id);
            },
            Step::Handle(reply) => {
                let now = UploaderView { store, ..u };
                assert(fits(reply)) by {
                    assert(steps[steps.len() - 1] == steps.last());
                }
                lemma_handle_keeps_sound(now, before, reply);
                lemma_nothing_is_lost(now, before, reply);
                lemma_handle_keeps_course(now, before, reply, url.id);
                lemma_extends_is_transitive(now.after(before, reply).0, store, u.store);
            },
        }
    }
}

/// A gated upload of a gallery that was announced stays done and leaves
/// the store alone whatever the driver does: a second run after a first
/// one sends no second message and publishes no second article.
pub proof fn lemma_second_run_does_nothing(u: UploaderView, url: GalleryUrlView, steps: Seq<Step>)
    requires
        u.announced(url.id),
    ensures
        run(u, u.begin_upload(url, true), steps) == (u.store, TaskView::done()),
        forall|i: int|
            0 <= i <= steps.len() ==> (#[trigger] run(
                u,
                u.begin_upload(url, true),
                steps.take(i),
            )).1.request() is None,
    decreases steps.len(),
{
    if steps.len() > 0 {
        lemma_second_run_does_nothing(u, url, steps.drop_last());
        assert forall|i: int| 0 <= i <= steps.len() implies (#[trigger] run(
            u,
            u.begin_upload(url, true),
            steps.take(i),
        )).1.request() is None by {
            if i < steps.len() {
                assert(steps.take(i) =~= steps.drop_last().take(i));
            } else {
                assert(steps.take(i) =~= steps);
            }
        }
    } else {
        assert forall|i: int| 0 <= i <= steps.len() implies (#[trigger] run(
            u,
            u.begin_upload(url, true),
            steps.take(i),
        )).1.request() is None by {
            assert(steps.take(i) =~= steps);
        }
    }
}

} // verus!

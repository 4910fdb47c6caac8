//! Batches: one operation on each gallery of a list.
//!
//! A batch uploads each gallery of a list again, whether it was announced
//! or not, or asks after the article of each and publishes again what has
//! gone. The galleries are taken in the order of the list, with a rest
//! after each. An operation that fails is counted and the batch goes on.

use crate::gallery::{url_views, EhGalleryUrl, GalleryUrlView};
use crate::laws::lemma_nothing_is_lost;
use crate::scan::{
    scan_request_view, ScanReply, ScanReplyView, ScanRequest, ScanRequestView, PAUSE_SECONDS,
};
use crate::store::StoreView;
use crate::uploader::{ExloliUploader, ReplyView, Task, TaskStatus, TaskView, UploaderView};
use vstd::prelude::*;

verus! {

/// What a batch does with each gallery.
#[derive(Clone, Copy, Debug, PartialEq, Eq, Structural)]
pub enum BatchKind {
    /// Upload it, whether it was announced or not.
    Reupload,
    /// Ask after its article, and publish the article again where it has gone.
    Recheck,
}

enum BatchPhase {
    Work(Task),
    Pause,
    Finished,
}

/// What a batch is busy with.
pub enum BatchPhaseView {
    /// The operation on the gallery at hand.
    Work(TaskView),
    /// The rest after the gallery at hand.
    Pause,
    /// Nothing: it is over.
    Finished,
}

pub struct Batch {
    kind: BatchKind,
    items: Vec<EhGalleryUrl>,
    index: usize,
    phase: BatchPhase,
    outbox: Option<ScanRequest>,
    failures: usize,
}

pub struct BatchView {
    pub kind: BatchKind,
    /// The galleries of the batch.
    pub items: Seq<GalleryUrlView>,
    /// Where in the list the gallery at hand is.
    pub index: int,
    pub phase: BatchPhaseView,
    /// The request that the driver has not taken yet.
    pub outbox: Option<ScanRequestView>,
    /// How many operations have failed.
    pub failures: usize,
}

impl BatchView {
    pub open spec fn finished(self) -> bool {
        self.phase is Finished
    }

    pub open spec fn over(self) -> BatchView {
        BatchView { phase: BatchPhaseView::Finished, outbox: None, ..self }
    }

    /// The batch as it rests after the gallery at hand, with `failed` more
    /// failures on its count; the count stops at the largest number it can
    /// hold.
    pub open spec fn resting(self, failed: bool) -> BatchView {
        BatchView {
            phase: BatchPhaseView::Pause,
            outbox: Some(ScanRequestView::Pause { seconds: PAUSE_SECONDS }),
            failures: if failed && self.failures < usize::MAX {
                (self.failures + 1) as usize
            } else {
                self.failures
            },
            ..self
        }
    }

    /// The request that the driver gets when it asks.
    pub open spec fn request(self) -> Option<ScanRequestView> {
        match self.outbox {
            Some(r) => Some(r),
            None => match self.phase {
                BatchPhaseView::Work(task) => match task.request() {
                    Some(r) => Some(ScanRequestView::Work(r)),
                    None => None,
                },
                _ => None,
            },
        }
    }

    /// The batch after the driver asked it for a request.
    pub open spec fn polled(self) -> BatchView {
        match self.outbox {
            Some(_) => BatchView { outbox: None, ..self },
            None => match self.phase {
                BatchPhaseView::Work(task) => BatchView {
                    phase: BatchPhaseView::Work(task.polled()),
                    ..self
                },
                _ => self,
            },
        }
    }
}

impl UploaderView {
    /// The operation of a batch on a gallery: the upload that is not
    /// gated, or the recheck of a gallery that was announced; nothing for
    /// a gallery without a message to recheck.
    pub open spec fn batch_task(self, kind: BatchKind, url: GalleryUrlView) -> TaskView {
        match kind {
            BatchKind::Reupload => self.begin_upload(url, false),
            BatchKind::Recheck => if self.announced(url.id) {
                self.begin_recheck(self.store.galleries[url.id], self.store.messages[url.id])
            } else {
                TaskView::done()
            },
        }
    }

    /// The batch as it turns to the gallery at `batch.index`: it rests at
    /// once where there is nothing to do for the gallery.
    pub open spec fn enter_item(self, batch: BatchView) -> BatchView {
        let task = self.batch_task(batch.kind, batch.items[batch.index]);
        if task.status() == TaskStatus::Running {
            BatchView { phase: BatchPhaseView::Work(task), outbox: None, ..batch }
        } else {
            batch.resting(false)
        }
    }

    /// The batch that begins.
    pub open spec fn begin_batch(self, kind: BatchKind, items: Seq<GalleryUrlView>) -> BatchView {
        let batch = BatchView {
            kind,
            items,
            index: 0,
            phase: BatchPhaseView::Finished,
            outbox: None,
            failures: 0,
        };
        if items.len() == 0 {
            batch
        } else {
            self.enter_item(batch)
        }
    }

    /// The store and the batch after an outcome was handed in. An outcome
    /// that the batch did not wait for changes nothing.
    pub open spec fn batched(self, batch: BatchView, reply: ScanReplyView) -> (StoreView, BatchView) {
        match batch.phase {
            BatchPhaseView::Work(task) => match reply {
                ScanReplyView::Work(reply) => {
                    let (store, next) = self.after(task, reply);
                    if next.status() == TaskStatus::Running {
                        (store, BatchView { phase: BatchPhaseView::Work(next), ..batch })
                    } else {
                        (store, batch.resting(next.status() is Failed))
                    }
                },
                _ => (self.store, batch),
            },
            BatchPhaseView::Pause => match reply {
                ScanReplyView::Paused => if batch.index + 1 < batch.items.len() {
                    (self.store, self.enter_item(BatchView { index: batch.index + 1, ..batch }))
                } else {
                    (self.store, batch.over())
                },
                _ => (self.store, batch),
            },
            BatchPhaseView::Finished => (self.store, batch),
        }
    }
}

impl View for Batch {
    type V = BatchView;

    closed spec fn view(&self) -> BatchView {
        BatchView {
            kind: self.kind,
            items: url_views(self.items@),
            index: self.index as int,
            phase: match self.phase {
                BatchPhase::Work(task) => BatchPhaseView::Work(task@),
                BatchPhase::Pause => BatchPhaseView::Pause,
                BatchPhase::Finished => BatchPhaseView::Finished,
            },
            outbox: scan_request_view(self.outbox),
            failures: self.failures,
        }
    }
}

impl Batch {
    pub closed spec fn wf(&self) -> bool {
        match self.phase {
            BatchPhase::Work(task) => task.wf() && self.index < self.items@.len(),
            BatchPhase::Pause => self.index < self.items@.len(),
            BatchPhase::Finished => true,
        }
    }

    /// Whether the batch is over.
    pub fn finished(&self) -> (over: bool)
        ensures
            over == self@.finished(),
    {
        match &self.phase {
            BatchPhase::Finished => true,
            _ => false,
        }
    }

    /// How many operations have failed so far.
    pub fn failures(&self) -> (n: usize)
        ensures
            n == self@.failures,
    {
        self.failures
    }

    /// The gallery at hand, while the batch is busy with one.
    pub fn current(&self) -> (gallery: Option<&EhGalleryUrl>)
        requires
            self.wf(),
        ensures
            match gallery {
                Some(g) => !self@.finished() && g@ == self@.items[self@.index],
                None => self@.finished(),
            },
    {
        match &self.phase {
            BatchPhase::Finished => None,
            _ => {
                proof {
                    assert(self@.items[self@.index] == self.items@[self.index as int]@);
                }
                Some(&self.items[self.index])
            },
        }
    }

    /// The next request for the driver to start, if there is one to start now.
    pub fn poll(&mut self) -> (request: Option<ScanRequest>)
        requires
            old(self).wf(),
        ensures
            final(self).wf(),
            scan_request_view(request) == old(self)@.request(),
            final(self)@ == old(self)@.polled(),
    {
        if self.outbox.is_some() {
            return self.outbox.take();
        }
        let mut phase = BatchPhase::Finished;
        core::mem::swap(&mut self.phase, &mut phase);
        match phase {
            BatchPhase::Work(mut task) => {
                let request = task.poll();
                self.phase = BatchPhase::Work(task);
                match request {
                    Some(r) => Some(ScanRequest::Work(r)),
                    None => None,
                }
            },
            other => {
                self.phase = other;
                None
            },
        }
    }

    fn resting(self, failed: bool) -> (batch: Batch)
        requires
            self.index < self.items@.len(),
        ensures
            batch.wf(),
            batch@ == self@.resting(failed),
    {
        let failures: usize = if failed && self.failures < usize::MAX {
            self.failures + 1
        } else {
            self.failures
        };
        Batch {
            phase: BatchPhase::Pause,
            outbox: Some(ScanRequest::Pause { seconds: PAUSE_SECONDS }),
            failures,
            ..self
        }
    }
}

impl ExloliUploader {
    fn batch_task(&self, kind: BatchKind, url: &EhGalleryUrl) -> (task: Task)
        requires
            self.wf(),
        ensures
            task.wf(),
            task@ == self@.batch_task(kind, url@),
    {
        match kind {
            BatchKind::Reupload => self.try_upload(url, false),
            BatchKind::Recheck => {
                let message = self.store().message(url.id);
                let snapshot = self.store().gallery(url.id);
                match (snapshot, message) {
                    (Some(snapshot), Some(message)) => self.recheck(snapshot, &message),
                    _ => Task::done(url.id),
                }
            },
        }
    }

    fn enter_item(&self, batch: Batch) -> (next: Batch)
        requires
            self.wf(),
            batch.index < batch.items@.len(),
        ensures
            next.wf(),
            next@ == self@.enter_item(batch@),
    {
        let task = self.batch_task(batch.kind, &batch.items[batch.index]);
        proof {
            assert(batch@.items[batch@.index] == batch.items@[batch.index as int]@);
        }
        match task.status() {
            TaskStatus::Running => Batch { phase: BatchPhase::Work(task), outbox: None, ..batch },
            _ => batch.resting(false),
        }
    }

    fn begin_batch(&self, kind: BatchKind, items: Vec<EhGalleryUrl>) -> (batch: Batch)
        requires
            self.wf(),
        ensures
            batch.wf(),
            batch@ == self@.begin_batch(kind, url_views(items@)),
    {
        let batch = Batch {
            kind,
            items,
            index: 0,
            phase: BatchPhase::Finished,
            outbox: None,
            failures: 0,
        };
        if batch.items.len() == 0 {
            batch
        } else {
            self.enter_item(batch)
        }
    }

    /// Begins the upload of each gallery of the list, whether it was
    /// announced or not.
    pub fn batch_reupload(&self, items: Vec<EhGalleryUrl>) -> (batch: Batch)
        requires
            self.wf(),
        ensures
            batch.wf(),
            batch@ == self@.begin_batch(BatchKind::Reupload, url_views(items@)),
    {
        self.begin_batch(BatchKind::Reupload, items)
    }

    /// Begins the recheck of the article of each gallery of the list that
    /// was announced.
    pub fn batch_recheck(&self, items: Vec<EhGalleryUrl>) -> (batch: Batch)
        requires
            self.wf(),
        ensures
            batch.wf(),
            batch@ == self@.begin_batch(BatchKind::Recheck, url_views(items@)),
    {
        self.begin_batch(BatchKind::Recheck, items)
    }

    /// Takes the outcome of a request of the batch and moves the batch on.
    pub fn proceed(&mut self, batch: Batch, reply: ScanReply) -> (next: Batch)
        requires
            old(self).wf(),
            batch.wf(),
        ensures
            final(self).wf(),
            next.wf(),
            final(self)@ == (UploaderView { store: final(self)@.store, ..old(self)@ }),
            (final(self)@.store, next@) == old(self)@.batched(batch@, reply@),
            final(self)@.store.extends(old(self)@.store),
    {
        let Batch { kind, items, index, phase, outbox, failures } = batch;
        match phase {
            BatchPhase::Work(task) => match reply {
                ScanReply::Work(reply) => {
                    let next = self.handle(task, reply);
                    match next.status() {
                        TaskStatus::Running => Batch {
                            kind,
                            items,
                            index,
                            phase: BatchPhase::Work(next),
                            outbox,
                            failures,
                        },
                        status => {
                            let failed: bool = match status {
                                TaskStatus::Failed(_) => true,
                                _ => false,
                            };
                            let batch = Batch {
                                kind,
                                items,
                                index,
                                phase: BatchPhase::Pause,
                                outbox,
                                failures,
                            };
                            batch.resting(failed)
                        },
                    }
                },
                _ => Batch { kind, items, index, phase: BatchPhase::Work(task), outbox, failures },
            },
            BatchPhase::Pause => match reply {
                ScanReply::Paused => {
                    let count: usize = items.len();
                    assert(index < count);
                    if index + 1 < count {
                        self.enter_item(
                            Batch {
                                kind,
                                items,
                                index: index + 1,
                                phase: BatchPhase::Pause,
                                outbox,
                                failures,
                            },
                        )
                    } else {
                        Batch {
                            kind,
                            items,
                            index,
                            phase: BatchPhase::Finished,
                            outbox: None,
                            failures,
                        }
                    }
                },
                _ => Batch { kind, items, index, phase: BatchPhase::Pause, outbox, failures },
            },
            BatchPhase::Finished => Batch {
                kind,
                items,
                index,
                phase: BatchPhase::Finished,
                outbox,
                failures,
            },
        }
    }
}

/// A batch goes through its list to the end: a failed operation is
/// counted and followed by the rest like any other, the rest is followed
/// by the next gallery of the list, and no row of the store is lost.
pub proof fn lemma_batch_outlives_failure(u: UploaderView, batch: BatchView, reply: ReplyView)
    requires
        batch.phase matches BatchPhaseView::Work(task) && u.after(task, reply).1.status() is Failed,
    ensures
        ({
            let (store, next) = u.batched(batch, ScanReplyView::Work(reply));
            &&& next.phase is Pause
            &&& next.outbox == Some(ScanRequestView::Pause { seconds: PAUSE_SECONDS })
            &&& next.index == batch.index
            &&& next.items == batch.items
            &&& next.failures == if batch.failures < usize::MAX {
                (batch.failures + 1) as usize
            } else {
                batch.failures
            }
            &&& store.extends(u.store)
            &&& (batch.index + 1 < batch.items.len() ==> !u.batched(
                next,
                ScanReplyView::Paused,
            ).1.finished() && u.batched(next, ScanReplyView::Paused).1.index == batch.index + 1)
        }),
{
    match batch.phase {
        BatchPhaseView::Work(task) => {
            lemma_nothing_is_lost(u, task, reply);
        },
        _ => {},
    }
}

} // verus!

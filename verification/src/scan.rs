//! The scan: one pass over the newest galleries of the catalog.
//!
//! The catalog lists its galleries page by page, newest first; the page
//! after a page is asked for by the id of the last gallery of that page.
//! The scan takes galleries from the list, in order, until it has taken as
//! many as the configuration says or the list ends. For each gallery it
//! runs a gated update and then a gated upload, and then rests for a
//! moment. An operation that fails is counted and the scan goes on with
//! what is next: one gallery's failure is not another's.
//!
//! The list is read lazily: a page is asked for only when a gallery of it
//! is needed.

use crate::gallery::{url_views, EhGalleryUrl, GalleryUrlView};
use crate::schedule::Date;
use crate::laws::lemma_nothing_is_lost;
use crate::store::StoreView;
use crate::uploader::{
    ExloliUploader, Reply, ReplyView, Request, RequestView, Task, TaskStatus, TaskView,
    UploaderView,
};
use vstd::prelude::*;

verus! {

/// Outside work that a scan asks for.
#[derive(Debug)]
pub enum ScanRequest {
    /// List the galleries that follow gallery `next` in the catalog; the
    /// newest ones for 0.
    Search { next: i32 },
    /// Work for the operation on the gallery at hand.
    Work(Request),
    /// Rest for so many seconds.
    Pause { seconds: u64 },
}

pub enum ScanRequestView {
    Search { next: i32 },
    Work(RequestView),
    Pause { seconds: u64 },
}

/// How long a scan rests after each gallery, in seconds.
pub const PAUSE_SECONDS: u64 = 1;

impl View for ScanRequest {
    type V = ScanRequestView;

    open spec fn view(&self) -> ScanRequestView {
        match self {
            ScanRequest::Search { next } => ScanRequestView::Search { next: *next },
            ScanRequest::Work(request) => ScanRequestView::Work(request@),
            ScanRequest::Pause { seconds } => ScanRequestView::Pause { seconds: *seconds },
        }
    }
}

pub open spec fn scan_request_view(request: Option<ScanRequest>) -> Option<ScanRequestView> {
    match request {
        Some(r) => Some(r@),
        None => None,
    }
}

/// The outcome of outside work for a scan.
#[derive(Debug)]
pub enum ScanReply {
    /// A page of the list of galleries; an empty one where the list has ended.
    Page(Vec<EhGalleryUrl>),
    /// The list could not be read.
    SearchFailed,
    /// The outcome of work for the operation on the gallery at hand.
    Work(Reply),
    /// The rest is over.
    Paused,
}

pub enum ScanReplyView {
    Page(Seq<GalleryUrlView>),
    SearchFailed,
    Work(ReplyView),
    Paused,
}

impl View for ScanReply {
    type V = ScanReplyView;

    open spec fn view(&self) -> ScanReplyView {
        match self {
            ScanReply::Page(urls) => ScanReplyView::Page(url_views(urls@)),
            ScanReply::SearchFailed => ScanReplyView::SearchFailed,
            ScanReply::Work(reply) => ScanReplyView::Work(reply@),
            ScanReply::Paused => ScanReplyView::Paused,
        }
    }
}

enum Phase {
    Search,
    Update(Task),
    Upload(Task),
    Pause,
    Finished,
}

/// What a scan is busy with.
pub enum PhaseView {
    /// It waits for a page of the list.
    Search,
    /// It updates the gallery at hand.
    Update(TaskView),
    /// It uploads the gallery at hand.
    Upload(TaskView),
    /// It rests after the gallery at hand.
    Pause,
    /// It is over.
    Finished,
}

pub struct Scan {
    today: Date,
    remaining: usize,
    cursor: i32,
    page: Vec<EhGalleryUrl>,
    index: usize,
    phase: Phase,
    outbox: Option<ScanRequest>,
    failures: usize,
}

pub struct ScanView {
    /// The day of the scan.
    pub today: Date,
    /// How many galleries the scan may still take, the one at hand included.
    pub remaining: usize,
    /// The id that the next page of the list is asked for with.
    pub cursor: i32,
    /// The page of the list that the scan is working through.
    pub page: Seq<GalleryUrlView>,
    /// Where in the page the gallery at hand is.
    pub index: int,
    pub phase: PhaseView,
    /// The request that the driver has not taken yet.
    pub outbox: Option<ScanRequestView>,
    /// How many operations have failed.
    pub failures: usize,
}

impl ScanView {
    pub open spec fn wf(self) -> bool {
        &&& 0 <= self.index
        &&& match self.phase {
            PhaseView::Search => self.remaining >= 1,
            PhaseView::Finished => true,
            _ => self.index < self.page.len() && self.remaining >= 1,
        }
    }

    pub open spec fn finished(self) -> bool {
        self.phase is Finished
    }

    /// The scan is busy with a gallery: it updates it, uploads it, or
    /// rests after it.
    pub open spec fn at_a_gallery(self) -> bool {
        self.phase is Update || self.phase is Upload || self.phase is Pause
    }

    pub open spec fn over(self) -> ScanView {
        ScanView { phase: PhaseView::Finished, outbox: None, ..self }
    }

    /// The scan with `failed` more failures on its count; the count stops
    /// at the largest number it can hold.
    pub open spec fn counting(self, failed: bool) -> ScanView {
        if failed && self.failures < usize::MAX {
            ScanView { failures: (self.failures + 1) as usize, ..self }
        } else {
            self
        }
    }

    /// The request that the driver gets when it asks.
    pub open spec fn request(self) -> Option<ScanRequestView> {
        match self.outbox {
            Some(r) => Some(r),
            None => match self.phase {
                PhaseView::Update(task) => match task.request() {
                    Some(r) => Some(ScanRequestView::Work(r)),
                    None => None,
                },
                PhaseView::Upload(task) => match task.request() {
                    Some(r) => Some(ScanRequestView::Work(r)),
                    None => None,
                },
                _ => None,
            },
        }
    }

    /// The scan after the driver asked it for a request.
    pub open spec fn polled(self) -> ScanView {
        match self.outbox {
            Some(_) => ScanView { outbox: None, ..self },
            None => match self.phase {
                PhaseView::Update(task) => ScanView {
                    phase: PhaseView::Update(task.polled()),
                    ..self
                },
                PhaseView::Upload(task) => ScanView {
                    phase: PhaseView::Upload(task.polled()),
                    ..self
                },
                _ => self,
            },
        }
    }
}

impl UploaderView {
    /// The scan that begins: it asks for the newest galleries, unless it is
    /// to take none.
    pub open spec fn begin_scan(self, today: Date) -> ScanView {
        let scan = ScanView {
            today,
            remaining: self.config.search_count,
            cursor: 0,
            page: Seq::empty(),
            index: 0,
            phase: PhaseView::Search,
            outbox: Some(ScanRequestView::Search { next: 0 }),
            failures: 0,
        };
        if self.config.search_count == 0 {
            scan.over()
        } else {
            scan
        }
    }

    /// The scan as it turns to the upload of the gallery at hand: it rests
    /// at once where the upload has nothing to do.
    pub open spec fn enter_upload(self, scan: ScanView) -> ScanView {
        let task = self.begin_upload(scan.page[scan.index], true);
        if task.status() == TaskStatus::Running {
            ScanView { phase: PhaseView::Upload(task), outbox: None, ..scan }
        } else {
            ScanView { phase: PhaseView::Pause, outbox: Some(ScanRequestView::Pause { seconds: PAUSE_SECONDS }), ..scan }
        }
    }

    /// The scan as it turns to the gallery at `scan.index`: the update
    /// first, and the upload at once where the update has nothing to do.
    pub open spec fn enter_gallery(self, scan: ScanView) -> ScanView {
        let task = self.begin_update(scan.page[scan.index], true, scan.today);
        if task.status() == TaskStatus::Running {
            ScanView { phase: PhaseView::Update(task), outbox: None, ..scan }
        } else {
            self.enter_upload(scan)
        }
    }

    /// The store and the scan after an outcome was handed in. An outcome
    /// that the scan did not wait for changes nothing.
    pub open spec fn scanned(self, scan: ScanView, reply: ScanReplyView) -> (StoreView, ScanView) {
        match scan.phase {
            PhaseView::Search => match reply {
                ScanReplyView::Page(urls) => if urls.len() == 0 {
                    (self.store, scan.over())
                } else {
                    (
                        self.store,
                        self.enter_gallery(
                            ScanView { page: urls, index: 0, cursor: urls.last().id, ..scan },
                        ),
                    )
                },
                ScanReplyView::SearchFailed => (self.store, scan.over()),
                _ => (self.store, scan),
            },
            PhaseView::Update(task) => match reply {
                ScanReplyView::Work(reply) => {
                    let (store, next) = self.after(task, reply);
                    if next.status() == TaskStatus::Running {
                        (store, ScanView { phase: PhaseView::Update(next), ..scan })
                    } else {
                        (
                            store,
                            (UploaderView { store, ..self }).enter_upload(
                                scan.counting(next.status() is Failed),
                            ),
                        )
                    }
                },
                _ => (self.store, scan),
            },
            PhaseView::Upload(task) => match reply {
                ScanReplyView::Work(reply) => {
                    let (store, next) = self.after(task, reply);
                    if next.status() == TaskStatus::Running {
                        (store, ScanView { phase: PhaseView::Upload(next), ..scan })
                    } else {
                        (
                            store,
                            ScanView {
                                phase: PhaseView::Pause,
                                outbox: Some(ScanRequestView::Pause { seconds: PAUSE_SECONDS }),
                                ..scan.counting(next.status() is Failed)
                            },
                        )
                    }
                },
                _ => (self.store, scan),
            },
            PhaseView::Pause => match reply {
                ScanReplyView::Paused => {
                    let rested = ScanView { remaining: (scan.remaining - 1) as usize, ..scan };
                    if rested.remaining == 0 {
                        (self.store, rested.over())
                    } else if scan.index + 1 < scan.page.len() {
                        (self.store, self.enter_gallery(ScanView { index: scan.index + 1, ..rested }))
                    } else {
                        (
                            self.store,
                            ScanView {
                                phase: PhaseView::Search,
                                outbox: Some(ScanRequestView::Search { next: scan.cursor }),
                                ..rested
                            },
                        )
                    }
                },
                _ => (self.store, scan),
            },
            PhaseView::Finished => (self.store, scan),
        }
    }
}

impl View for Scan {
    type V = ScanView;

    closed spec fn view(&self) -> ScanView {
        ScanView {
            today: self.today,
            remaining: self.remaining,
            cursor: self.cursor,
            page: url_views(self.page@),
            index: self.index as int,
            phase: match self.phase {
                Phase::Search => PhaseView::Search,
                Phase::Update(task) => PhaseView::Update(task@),
                Phase::Upload(task) => PhaseView::Upload(task@),
                Phase::Pause => PhaseView::Pause,
                Phase::Finished => PhaseView::Finished,
            },
            outbox: scan_request_view(self.outbox),
            failures: self.failures,
        }
    }
}

impl Scan {
    pub closed spec fn wf(&self) -> bool {
        &&& match self.phase {
            Phase::Search => self.remaining >= 1,
            Phase::Finished => true,
            Phase::Update(task) => task.wf() && self.index < self.page@.len() && self.remaining
                >= 1,
            Phase::Upload(task) => task.wf() && self.index < self.page@.len() && self.remaining
                >= 1,
            Phase::Pause => self.index < self.page@.len() && self.remaining >= 1,
        }
    }

    /// Whether the scan is over.
    pub fn finished(&self) -> (over: bool)
        ensures
            over == self@.finished(),
    {
        match &self.phase {
            Phase::Finished => true,
            _ => false,
        }
    }

    /// How many operations have failed so far.
    pub fn failures(&self) -> (n: usize)
        ensures
            n == self@.failures,
    {
        self.failures
    }

    /// How many galleries the scan may still take.
    pub fn remaining(&self) -> (n: usize)
        ensures
            n == self@.remaining,
    {
        self.remaining
    }

    /// The gallery at hand, while the scan is busy with one.
    pub fn current(&self) -> (gallery: Option<&EhGalleryUrl>)
        requires
            self.wf(),
        ensures
            match gallery {
                Some(g) => self@.at_a_gallery() && g@ == self@.page[self@.index],
                None => !self@.at_a_gallery(),
            },
    {
        match &self.phase {
            Phase::Search => None,
            Phase::Finished => None,
            _ => {
                proof {
                    assert(self@.page[self@.index] == self.page@[self.index as int]@);
                }
                Some(&self.page[self.index])
            },
        }
    }

    /// The next request for the driver to start, if there is one to start now.
    pub fn poll(&mut self) -> (request: Option<ScanRequest>)
        requires
            old(self).wf(),
        ensures
            final(self).wf(),
            scan_request_view(request) == old(self)@.request(),
            final(self)@ == old(self)@.polled(),
    {
        if self.outbox.is_some() {
            return self.outbox.take();
        }
        let mut phase = Phase::Finished;
        core::mem::swap(&mut self.phase, &mut phase);
        match phase {
            Phase::Update(mut task) => {
                let request = task.poll();
                self.phase = Phase::Update(task);
                match request {
                    Some(r) => Some(ScanRequest::Work(r)),
                    None => None,
                }
            },
            Phase::Upload(mut task) => {
                let request = task.poll();
                self.phase = Phase::Upload(task);
                match request {
                    Some(r) => Some(ScanRequest::Work(r)),
                    None => None,
                }
            },
            other => {
                self.phase = other;
                None
            },
        }
    }

    fn over(self) -> (scan: Scan)
        ensures
            scan.wf(),
            scan@ == self@.over(),
    {
        Scan { phase: Phase::Finished, outbox: None, ..self }
    }

    fn counting(self, failed: bool) -> (scan: Scan)
        requires
            self.wf(),
        ensures
            scan.wf(),
            scan@ == self@.counting(failed),
    {
        if failed && self.failures < usize::MAX {
            Scan { failures: self.failures + 1, ..self }
        } else {
            self
        }
    }
}

impl ExloliUploader {
    /// Begins a scan on the day `today`.
    pub fn check(&self, today: Date) -> (scan: Scan)
        requires
            self.wf(),
        ensures
            scan.wf(),
            scan@ == self@.begin_scan(today),
    {
        let scan = Scan {
            today,
            remaining: self.config().search_count,
            cursor: 0,
            page: Vec::new(),
            index: 0,
            phase: Phase::Search,
            outbox: Some(ScanRequest::Search { next: 0 }),
            failures: 0,
        };
        proof {
            assert(scan@.page =~= Seq::<GalleryUrlView>::empty());
        }
        if self.config().search_count == 0 {
            scan.over()
        } else {
            scan
        }
    }

    fn enter_upload(&self, scan: Scan) -> (next: Scan)
        requires
            self.wf(),
            scan.index < scan.page@.len(),
            scan.remaining >= 1,
        ensures
            next.wf(),
            next@ == self@.enter_upload(scan@),
    {
        let task = self.try_upload(&scan.page[scan.index], true);
        proof {
            assert(scan@.page[scan@.index] == scan.page@[scan.index as int]@);
        }
        match task.status() {
            TaskStatus::Running => Scan { phase: Phase::Upload(task), outbox: None, ..scan },
            _ => Scan { phase: Phase::Pause, outbox: Some(ScanRequest::Pause { seconds: PAUSE_SECONDS }), ..scan },
        }
    }

    fn enter_gallery(&self, scan: Scan) -> (next: Scan)
        requires
            self.wf(),
            scan.index < scan.page@.len(),
            scan.remaining >= 1,
        ensures
            next.wf(),
            next@ == self@.enter_gallery(scan@),
    {
        let task = self.try_update(&scan.page[scan.index], true, &scan.today);
        proof {
            assert(scan@.page[scan@.index] == scan.page@[scan.index as int]@);
        }
        match task.status() {
            TaskStatus::Running => Scan { phase: Phase::Update(task), outbox: None, ..scan },
            _ => self.enter_upload(scan),
        }
    }

    /// Takes the outcome of a request of the scan and moves the scan on.
    pub fn advance(&mut self, scan: Scan, reply: ScanReply) -> (next: Scan)
        requires
            old(self).wf(),
            scan.wf(),
        ensures
            final(self).wf(),
            next.wf(),
            final(self)@ == (UploaderView { store: final(self)@.store, ..old(self)@ }),
            (final(self)@.store, next@) == old(self)@.scanned(scan@, reply@),
            final(self)@.store.extends(old(self)@.store),
    {
        let Scan { today, remaining, cursor, page, index, phase, outbox, failures } = scan;
        match phase {
            Phase::Search => match reply {
                ScanReply::Page(urls) => {
                    if urls.len() == 0 {
                        let scan = Scan {
                            today,
                            remaining,
                            cursor,
                            page,
                            index,
                            phase: Phase::Search,
                            outbox,
                            failures,
                        };
                        scan.over()
                    } else {
                        let last: i32 = urls[urls.len() - 1].id;
                        proof {
                            assert(url_views(urls@).last().id == last);
                        }
                        self.enter_gallery(
                            Scan {
                                today,
                                remaining,
                                cursor: last,
                                page: urls,
                                index: 0,
                                phase: Phase::Search,
                                outbox,
                                failures,
                            },
                        )
                    }
                },
                ScanReply::SearchFailed => {
                    let scan = Scan {
                        today,
                        remaining,
                        cursor,
                        page,
                        index,
                        phase: Phase::Search,
                        outbox,
                        failures,
                    };
                    scan.over()
                },
                _ => Scan {
                    today,
                    remaining,
                    cursor,
                    page,
                    index,
                    phase: Phase::Search,
                    outbox,
                    failures,
                },
            },
            Phase::Update(task) => match reply {
                ScanReply::Work(reply) => {
                    let next = self.handle(task, reply);
                    match next.status() {
                        TaskStatus::Running => Scan {
                            today,
                            remaining,
                            cursor,
                            page,
                            index,
                            phase: Phase::Update(next),
                            outbox,
                            failures,
                        },
                        status => {
                            let failed: bool = match status {
                                TaskStatus::Failed(_) => true,
                                _ => false,
                            };
                            let scan = Scan {
                                today,
                                remaining,
                                cursor,
                                page,
                                index,
                                phase: Phase::Pause,
                                outbox,
                                failures,
                            };
                            self.enter_upload(scan.counting(failed))
                        },
                    }
                },
                _ => Scan {
                    today,
                    remaining,
                    cursor,
                    page,
                    index,
                    phase: Phase::Update(task),
                    outbox,
                    failures,
                },
            },
            Phase::Upload(task) => match reply {
                ScanReply::Work(reply) => {
                    let next = self.handle(task, reply);
                    match next.status() {
                        TaskStatus::Running => Scan {
                            today,
                            remaining,
                            cursor,
                            page,
                            index,
                            phase: Phase::Upload(next),
                            outbox,
                            failures,
                        },
                        status => {
                            let failed: bool = match status {
                                TaskStatus::Failed(_) => true,
                                _ => false,
                            };
                            let scan = Scan {
                                today,
                                remaining,
                                cursor,
                                page,
                                index,
                                phase: Phase::Pause,
                                outbox,
                                failures,
                            };
                            let counted = scan.counting(failed);
                            Scan { outbox: Some(ScanRequest::Pause { seconds: PAUSE_SECONDS }), ..counted }
                        },
                    }
                },
                _ => Scan {
                    today,
                    remaining,
                    cursor,
                    page,
                    index,
                    phase: Phase::Upload(task),
                    outbox,
                    failures,
                },
            },
            Phase::Pause => match reply {
                ScanReply::Paused => {
                    let count: usize = page.len();
                    assert(index < count && remaining >= 1);
                    let left: usize = remaining - 1;
                    if left == 0 {
                        let scan = Scan {
                            today,
                            remaining: left,
                            cursor,
                            page,
                            index,
                            phase: Phase::Finished,
                            outbox,
                            failures,
                        };
                        scan.over()
                    } else if index + 1 < count {
                        self.enter_gallery(
                            Scan {
                                today,
                                remaining: left,
                                cursor,
                                page,
                                index: index + 1,
                                phase: Phase::Search,
                                outbox,
                                failures,
                            },
                        )
                    } else {
                        Scan {
                            today,
                            remaining: left,
                            cursor,
                            page,
                            index,
                            phase: Phase::Search,
                            outbox: Some(ScanRequest::Search { next: cursor }),
                            failures,
                        }
                    }
                },
                _ => Scan {
                    today,
                    remaining,
                    cursor,
                    page,
                    index,
                    phase: Phase::Pause,
                    outbox,
                    failures,
                },
            },
            Phase::Finished => Scan {
                today,
                remaining,
                cursor,
                page,
                index,
                phase: Phase::Finished,
                outbox,
                failures,
            },
        }
    }
}

/// One gallery's failure is not another's: an operation that fails is
/// counted, and the scan goes on to what is next for the gallery at hand,
/// the upload after a failed update and the rest after a failed upload. The
/// store keeps every row it held.
pub proof fn lemma_scan_outlives_failure(u: UploaderView, scan: ScanView, reply: ReplyView)
    requires
        match scan.phase {
            PhaseView::Update(task) => u.after(task, reply).1.status() is Failed,
            PhaseView::Upload(task) => u.after(task, reply).1.status() is Failed,
            _ => false,
        },
    ensures
        ({
            let (store, next) = u.scanned(scan, ScanReplyView::Work(reply));
            &&& !next.finished()
            &&& (scan.phase is Update ==> next.phase is Upload || next.phase is Pause)
            &&& (scan.phase is Upload ==> next.phase is Pause && next.outbox == Some(
                ScanRequestView::Pause { seconds: PAUSE_SECONDS },
            ))
            &&& next.failures == if scan.failures < usize::MAX {
                (scan.failures + 1) as usize
            } else {
                scan.failures
            }
            &&& next.remaining == scan.remaining
            &&& next.page == scan.page
            &&& next.index == scan.index
            &&& store.extends(u.store)
        }),
{
    match scan.phase {
        PhaseView::Update(task) => {
            lemma_nothing_is_lost(u, task, reply);
        },
        PhaseView::Upload(task) => {
            lemma_nothing_is_lost(u, task, reply);
        },
        _ => {},
    }
}

/// A scan takes a gallery with every rest, and is over when it has taken
/// as many as it was to take: after the rest that follows the last
/// gallery, nothing more is asked for.
pub proof fn lemma_scan_takes_its_count(u: UploaderView, scan: ScanView)
    requires
        scan.wf(),
        scan.phase is Pause,
    ensures
        ({
            let (store, next) = u.scanned(scan, ScanReplyView::Paused);
            &&& store == u.store
            &&& next.remaining == scan.remaining - 1
            &&& (scan.remaining == 1 ==> next.finished() && next.request() is None)
            &&& (scan.remaining > 1 && scan.index + 1 == scan.page.len() ==> next.phase
                is Search && next.outbox == Some(ScanRequestView::Search { next: scan.cursor }))
            &&& (scan.remaining > 1 && scan.index + 1 < scan.page.len() ==> next.index
                == scan.index + 1 && !next.finished())
        }),
{
}

/// The list of galleries is read in order: the page after a page is asked
/// for with the id of the last gallery of that page, and a page that is
/// empty or cannot be read ends the scan.
pub proof fn lemma_scan_follows_the_list(u: UploaderView, scan: ScanView, urls: Seq<GalleryUrlView>)
    requires
        scan.phase is Search,
    ensures
        u.scanned(scan, ScanReplyView::SearchFailed).1.finished(),
        urls.len() == 0 ==> u.scanned(scan, ScanReplyView::Page(urls)).1.finished(),
        urls.len() > 0 ==> {
            let next = u.scanned(scan, ScanReplyView::Page(urls)).1;
            &&& next.cursor == urls.last().id
            &&& next.page == urls
            &&& next.index == 0
            &&& !next.finished()
        },
{
}

/// No outcome makes a scan lose a row of the store, and an outcome that
/// the scan did not wait for leaves the store as it is.
pub proof fn lemma_scan_loses_nothing(u: UploaderView, scan: ScanView, reply: ScanReplyView)
    ensures
        u.scanned(scan, reply).0.extends(u.store),
        !(reply is Work) ==> u.scanned(scan, reply).0 == u.store,
        scan.finished() ==> u.scanned(scan, reply) == (u.store, scan),
{
    match (scan.phase, reply) {
        (PhaseView::Update(task), ScanReplyView::Work(reply)) => {
            lemma_nothing_is_lost(u, task, reply);
        },
        (PhaseView::Upload(task), ScanReplyView::Work(reply)) => {
            lemma_nothing_is_lost(u, task, reply);
        },
        _ => {},
    }
}

} // verus!

//! The asset pipeline: every page of a gallery ends up filled by a re-hosted
//! image, and only images that the store does not hold are fetched.
//!
//! Pages whose image is held are filled at once. The others pass through two
//! stages joined by a bounded queue. Stage A resolves, one page at a time,
//! where the image of a page can be fetched. Stage B fetches and re-hosts
//! resolved images, several at a time, and records each in the store. The
//! queue holds at most twice as many entries as stage B has workers, and
//! stage A rests while it is full.
//!
//! The pipeline does none of the outside work itself. It says what to start
//! next ([`AssetPipeline::next_action`]) and is told what came back
//! ([`AssetPipeline::resolved`], [`AssetPipeline::uploaded`],
//! [`AssetPipeline::fail`]). The first failure ends the run: nothing more is
//! started and nothing more is recorded, and what was recorded stays.

use crate::gallery::{page_views, EhPageUrl, PageView};
use crate::store::{ImageEntity, ImageView, Store, StoreView};
use crate::text::{append_chars, chars_of, extension, extension_of, string_of};
use vstd::prelude::*;

verus! {

/// A resolved page that waits for stage B or is with it.
pub struct Resolved {
    /// The position of the page among the pages to fetch.
    pub index: usize,
    pub fileindex: u32,
    /// Where the image can be fetched.
    pub url: String,
}

pub struct ResolvedView {
    pub index: usize,
    pub fileindex: u32,
    pub url: Seq<char>,
}

impl View for Resolved {
    type V = ResolvedView;

    open spec fn view(&self) -> ResolvedView {
        ResolvedView { index: self.index, fileindex: self.fileindex, url: self.url@ }
    }
}

pub open spec fn resolved_views(entries: Seq<Resolved>) -> Seq<ResolvedView> {
    entries.map_values(|e: Resolved| e@)
}

/// One image for stage B to fetch and re-host.
#[derive(Debug)]
pub struct UploadJob {
    /// The position of the page among the pages to fetch; it names the job
    /// when its outcome is reported.
    pub index: usize,
    pub page: EhPageUrl,
    pub fileindex: u32,
    /// Where the image can be fetched.
    pub url: String,
    /// The name to re-host the image under.
    pub filename: String,
}

pub struct JobView {
    pub index: usize,
    pub page: PageView,
    pub fileindex: u32,
    pub url: Seq<char>,
    pub filename: Seq<char>,
}

impl View for UploadJob {
    type V = JobView;

    open spec fn view(&self) -> JobView {
        JobView {
            index: self.index,
            page: self.page@,
            fileindex: self.fileindex,
            url: self.url@,
            filename: self.filename@,
        }
    }
}

/// Outside work for the driver to start.
#[derive(Debug)]
pub enum PipelineAction {
    /// Stage A: find out where the image of this page can be fetched.
    Resolve(EhPageUrl),
    /// Stage B: fetch this image and re-host it.
    Upload(UploadJob),
}

#[derive(Clone, Copy, Debug, PartialEq, Eq, Structural)]
pub enum PipelineStatus {
    /// Work is under way or waits to be started.
    Running,
    /// Every page was handled.
    Done,
    /// A stage failed; the run is over.
    Failed,
}

/// The name under which an image is re-hosted: the hash of its content, a
/// dot, and the extension of the address it was fetched from.
pub open spec fn file_name(hash: Seq<char>, url: Seq<char>) -> Seq<char> {
    hash.push('.') + extension(url)
}

/// Whether the address is that of an animated image.
pub open spec fn is_animated(url: Seq<char>) -> bool {
    extension(url) == seq!['g', 'i', 'f']
}

pub struct AssetPipeline {
    pending: Vec<EhPageUrl>,
    next: usize,
    resolving: bool,
    queue: Vec<Resolved>,
    in_flight: Vec<Resolved>,
    skipped: Vec<usize>,
    workers: usize,
    skip_animated: bool,
    failed: bool,
}

pub struct PipelineView {
    /// The pages whose image the store did not hold, in gallery order.
    pub pending: Seq<PageView>,
    /// How many of them were handed to stage A.
    pub next: int,
    /// Stage A is at work, on page `next - 1`.
    pub resolving: bool,
    /// Resolved pages that wait for stage B, oldest first.
    pub queue: Seq<ResolvedView>,
    /// Resolved pages that stage B is at work on.
    pub in_flight: Seq<ResolvedView>,
    /// Pages left out as animated.
    pub skipped: Seq<usize>,
    /// How many images stage B handles at a time.
    pub workers: int,
    /// Whether animated images are left out.
    pub skip_animated: bool,
    pub failed: bool,
}

impl PipelineView {
    /// The state before any work: nothing resolved, nothing queued.
    pub open spec fn fresh(pending: Seq<PageView>, workers: int, skip_animated: bool) -> Self {
        PipelineView {
            pending,
            next: 0,
            resolving: false,
            queue: Seq::empty(),
            in_flight: Seq::empty(),
            skipped: Seq::empty(),
            workers,
            skip_animated,
            failed: false,
        }
    }

    /// The most entries that the queue holds.
    pub open spec fn capacity(self) -> int {
        2 * self.workers
    }

    /// How many pages stage A has resolved.
    pub open spec fn resolved_count(self) -> int {
        if self.resolving {
            self.next - 1
        } else {
            self.next
        }
    }

    pub open spec fn wf(self) -> bool {
        &&& 1 <= self.workers
        &&& 0 <= self.resolved_count() <= self.next <= self.pending.len() <= usize::MAX
        &&& self.queue.len() + (self.next - self.resolved_count()) <= self.capacity()
        &&& self.in_flight.len() <= self.workers
        &&& forall|k: int|
            0 <= k < self.queue.len() ==> (#[trigger] self.queue[k]).index < self.resolved_count()
        &&& forall|k: int|
            0 <= k < self.in_flight.len() ==> (#[trigger] self.in_flight[k]).index
                < self.resolved_count()
        &&& forall|j: int, k: int|
            0 <= j < k < self.queue.len() ==> (#[trigger] self.queue[j]).index != (
            #[trigger] self.queue[k]).index
        &&& forall|j: int, k: int|
            0 <= j < k < self.in_flight.len() ==> (#[trigger] self.in_flight[j]).index != (
            #[trigger] self.in_flight[k]).index
        &&& forall|j: int, k: int|
            0 <= j < self.queue.len() && 0 <= k < self.in_flight.len() ==> (
            #[trigger] self.queue[j]).index != (#[trigger] self.in_flight[k]).index
    }

    /// Stage A may take the next page: it is idle, a page is left, and the
    /// queue has room for what it will resolve.
    pub open spec fn can_resolve(self) -> bool {
        &&& !self.failed
        &&& !self.resolving
        &&& self.next < self.pending.len()
        &&& self.queue.len() < self.capacity()
    }

    /// Stage B may take the oldest entry of the queue: a worker is idle and
    /// the queue is not empty.
    pub open spec fn can_upload(self) -> bool {
        &&& !self.failed
        &&& self.in_flight.len() < self.workers
        &&& self.queue.len() > 0
    }

    pub open spec fn start_resolve(self) -> Self {
        PipelineView { next: self.next + 1, resolving: true, ..self }
    }

    pub open spec fn start_upload(self) -> Self {
        PipelineView {
            queue: self.queue.drop_first(),
            in_flight: self.in_flight.push(self.queue[0]),
            ..self
        }
    }

    /// The state after stage A resolved its page: the page joins the queue,
    /// or is left out where animated images are.
    pub open spec fn finish_resolve(self, fileindex: u32, url: Seq<char>) -> Self {
        let index = (self.next - 1) as usize;
        if self.skip_animated && is_animated(url) {
            PipelineView { resolving: false, skipped: self.skipped.push(index), ..self }
        } else {
            PipelineView {
                resolving: false,
                queue: self.queue.push(ResolvedView { index, fileindex, url }),
                ..self
            }
        }
    }

    /// Whether stage B is at work on job `index`.
    pub open spec fn in_flight_has(self, index: usize) -> bool {
        exists|k: int| 0 <= k < self.in_flight.len() && (#[trigger] self.in_flight[k]).index == index
    }

    /// Where among the jobs of stage B job `index` is.
    pub open spec fn in_flight_pos(self, index: usize) -> int {
        choose|k: int| 0 <= k < self.in_flight.len() && (#[trigger] self.in_flight[k]).index == index
    }

    pub open spec fn finish_upload(self, index: usize) -> Self {
        PipelineView { in_flight: self.in_flight.remove(self.in_flight_pos(index)), ..self }
    }

    /// The job that stage B gets for a queue entry.
    pub open spec fn job_of(self, entry: ResolvedView) -> JobView {
        let page = self.pending[entry.index as int];
        JobView {
            index: entry.index,
            page,
            fileindex: entry.fileindex,
            url: entry.url,
            filename: file_name(page.hash, entry.url),
        }
    }

    /// Page `i` is resolved and still waits for stage B or is with it.
    pub open spec fn waiting(self, i: int) -> bool {
        ||| exists|k: int| 0 <= k < self.queue.len() && (#[trigger] self.queue[k]).index == i
        ||| exists|k: int|
            0 <= k < self.in_flight.len() && (#[trigger] self.in_flight[k]).index == i
    }

    /// Page `i` has left the pipeline.
    pub open spec fn settled(self, i: int) -> bool {
        0 <= i < self.resolved_count() && !self.waiting(i)
    }

    /// Every page that has left the pipeline is filled in `store`, or was
    /// left out as animated.
    pub open spec fn accounted(self, store: StoreView) -> bool {
        forall|i: int| #[trigger]
            self.settled(i) ==> store.bound(self.pending[i].gallery_id, self.pending[i].page)
                || self.skipped.contains(i as usize)
    }

    /// Whether a report from stage A is taken note of.
    pub open spec fn expects_resolved(self) -> bool {
        !self.failed && self.resolving
    }

    /// The state after stage A reported what it resolved.
    pub open spec fn after_resolved(self, fileindex: u32, url: Seq<char>) -> Self {
        if self.expects_resolved() {
            self.finish_resolve(fileindex, url)
        } else {
            self
        }
    }

    /// Whether a report from stage B on job `index` is taken note of.
    pub open spec fn expects_uploaded(self, index: usize) -> bool {
        !self.failed && self.in_flight_has(index)
    }

    /// The state after stage B reported that it re-hosted job `index`.
    pub open spec fn after_uploaded(self, index: usize) -> Self {
        if self.expects_uploaded(index) {
            self.finish_upload(index)
        } else {
            self
        }
    }

    /// The store after stage B reported that it re-hosted the image of job
    /// `index` at `url`: the image is recorded and the page is filled.
    pub open spec fn store_after_uploaded(self, store: StoreView, index: usize, url: Seq<char>) -> StoreView {
        if self.expects_uploaded(index) {
            let page = self.pending[index as int];
            let fileindex = self.in_flight[self.in_flight_pos(index)].fileindex;
            store.with_image(page.hash, ImageView { fileindex, url }).with_page(
                page.gallery_id,
                page.page,
                page.hash,
            )
        } else {
            store
        }
    }

    /// The state after a stage failed.
    pub open spec fn after_failure(self) -> Self {
        PipelineView { failed: true, ..self }
    }

    pub open spec fn status(self) -> PipelineStatus {
        if self.failed {
            PipelineStatus::Failed
        } else if self.next == self.pending.len() && !self.resolving && self.queue.len() == 0
            && self.in_flight.len() == 0 {
            PipelineStatus::Done
        } else {
            PipelineStatus::Running
        }
    }
}

/// The store after the pages whose image it holds were filled.
pub open spec fn bind_known(store: StoreView, pages: Seq<PageView>) -> StoreView
    decreases pages.len(),
{
    if pages.len() == 0 {
        store
    } else {
        let p = pages.last();
        bind_known(store, pages.drop_last()).with_page(p.gallery_id, p.page, p.hash)
    }
}

/// The pages whose image the store does not hold, in order.
pub open spec fn unknown_pages(store: StoreView, pages: Seq<PageView>) -> Seq<PageView>
    decreases pages.len(),
{
    if pages.len() == 0 {
        Seq::empty()
    } else {
        let p = pages.last();
        let before = unknown_pages(store, pages.drop_last());
        if store.images.dom().contains(p.hash) {
            before
        } else {
            before.push(p)
        }
    }
}

/// Filling pages adds no image and loses nothing.
pub proof fn lemma_bind_known_extends(store: StoreView, pages: Seq<PageView>)
    ensures
        bind_known(store, pages).extends(store),
        bind_known(store, pages).images == store.images,
        bind_known(store, pages).galleries == store.galleries,
        bind_known(store, pages).messages == store.messages,
        bind_known(store, pages).telegraphs == store.telegraphs,
    decreases pages.len(),
{
    if pages.len() > 0 {
        lemma_bind_known_extends(store, pages.drop_last());
        let mid = bind_known(store, pages.drop_last());
        let p = pages.last();
        assert(mid.with_page(p.gallery_id, p.page, p.hash).extends(mid));
    }
}

/// Handing the next page to stage A keeps the pipeline in order and keeps
/// the pages that have left it accounted for.
pub proof fn lemma_start_resolve(p: PipelineView)
    requires
        p.wf(),
        p.can_resolve(),
    ensures
        p.start_resolve().wf(),
        forall|s: StoreView| p.accounted(s) ==> #[trigger] p.start_resolve().accounted(s),
{
    let after = p.start_resolve();
    assert forall|s: StoreView| p.accounted(s) implies after.accounted(s) by {
        assert forall|i: int| after.settled(i) implies s.bound(
            after.pending[i].gallery_id,
            after.pending[i].page,
        ) || after.skipped.contains(i as usize) by {
            assert(after.queue == p.queue);
            assert(after.in_flight == p.in_flight);
            assert(p.settled(i));
        }
    }
}

/// A page that waits in `before` waits in `after` too.
spec fn keeps_waiting(before: PipelineView, after: PipelineView) -> bool {
    forall|i: int| before.waiting(i) ==> #[trigger] after.waiting(i)
}

proof fn lemma_accounted_carries(before: PipelineView, after: PipelineView, s: StoreView)
    requires
        before.accounted(s),
        keeps_waiting(before, after),
        after.pending == before.pending,
        after.resolved_count() == before.resolved_count(),
        forall|v: usize| before.skipped.contains(v) ==> after.skipped.contains(v),
    ensures
        after.accounted(s),
{
    assert forall|i: int| after.settled(i) implies s.bound(
        after.pending[i].gallery_id,
        after.pending[i].page,
    ) || after.skipped.contains(i as usize) by {
        if before.waiting(i) {
            assert(after.waiting(i));
        }
        assert(before.settled(i));
    }
}

/// Handing the oldest queue entry to stage B keeps the pipeline in order
/// and keeps the pages that have left it accounted for.
pub proof fn lemma_start_upload(p: PipelineView)
    requires
        p.wf(),
        p.can_upload(),
    ensures
        p.start_upload().wf(),
        forall|s: StoreView| p.accounted(s) ==> #[trigger] p.start_upload().accounted(s),
{
    let after = p.start_upload();
    let moved = p.in_flight.len() as int;
    assert forall|k: int| 0 <= k < after.queue.len() implies after.queue[k] == p.queue[k + 1] by {}
    assert forall|k: int| 0 <= k < after.in_flight.len() implies after.in_flight[k] == (if k
        < moved {
        p.in_flight[k]
    } else {
        p.queue[0]
    }) by {}
    assert forall|j: int, k: int|
        0 <= j < after.queue.len() && 0 <= k < after.in_flight.len() implies (
    #[trigger] after.queue[j]).index != (#[trigger] after.in_flight[k]).index by {
        assert(after.queue[j] == p.queue[j + 1]);
        if k < moved {
            assert(after.in_flight[k] == p.in_flight[k]);
        } else {
            assert(after.in_flight[k] == p.queue[0]);
        }
    }
    assert forall|j: int, k: int| 0 <= j < k < after.queue.len() implies (
    #[trigger] after.queue[j]).index != (#[trigger] after.queue[k]).index by {
        assert(after.queue[j] == p.queue[j + 1]);
        assert(after.queue[k] == p.queue[k + 1]);
    }
    assert forall|j: int, k: int| 0 <= j < k < after.in_flight.len() implies (
    #[trigger] after.in_flight[j]).index != (#[trigger] after.in_flight[k]).index by {
        assert(after.in_flight[j] == p.in_flight[j]);
        if k < moved {
            assert(after.in_flight[k] == p.in_flight[k]);
        } else {
            assert(after.in_flight[k] == p.queue[0]);
        }
    }
    assert forall|k: int| 0 <= k < after.queue.len() implies (#[trigger] after.queue[k]).index
        < after.resolved_count() by {
        assert(after.queue[k] == p.queue[k + 1]);
    }
    assert forall|k: int| 0 <= k < after.in_flight.len() implies (
    #[trigger] after.in_flight[k]).index < after.resolved_count() by {
        if k < moved {
            assert(after.in_flight[k] == p.in_flight[k]);
        } else {
            assert(after.in_flight[k] == p.queue[0]);
        }
    }
    assert forall|i: int| p.waiting(i) implies #[trigger] after.waiting(i) by {
        if exists|k: int| 0 <= k < p.queue.len() && (#[trigger] p.queue[k]).index == i {
            let k = choose|k: int| 0 <= k < p.queue.len() && (#[trigger] p.queue[k]).index == i;
            if k == 0 {
                assert(after.in_flight[moved].index == i);
            } else {
                assert(after.queue[k - 1].index == i);
            }
        } else {
            let k = choose|k: int|
                0 <= k < p.in_flight.len() && (#[trigger] p.in_flight[k]).index == i;
            assert(after.in_flight[k].index == i);
        }
    }
    assert forall|s: StoreView| p.accounted(s) implies #[trigger] after.accounted(s) by {
        lemma_accounted_carries(p, after, s);
    }
}

/// Taking note of what stage A resolved keeps the pipeline in order and
/// keeps the pages that have left it accounted for.
pub proof fn lemma_finish_resolve(p: PipelineView, fileindex: u32, url: Seq<char>)
    requires
        p.wf(),
        p.expects_resolved(),
    ensures
        p.finish_resolve(fileindex, url).wf(),
        forall|s: StoreView|
            p.accounted(s) ==> #[trigger] p.finish_resolve(fileindex, url).accounted(s),
{
    let after = p.finish_resolve(fileindex, url);
    let index = (p.next - 1) as usize;
    if p.skip_animated && is_animated(url) {
        assert(after.skipped[p.skipped.len() as int] == index);
        assert forall|s: StoreView| p.accounted(s) implies #[trigger] after.accounted(s) by {
            assert forall|i: int| after.settled(i) implies s.bound(
                after.pending[i].gallery_id,
                after.pending[i].page,
            ) || after.skipped.contains(i as usize) by {
                assert(after.queue == p.queue);
                assert(after.in_flight == p.in_flight);
                if i != index {
                    assert(p.settled(i));
                    if p.skipped.contains(i as usize) {
                        let k = choose|k: int|
                            0 <= k < p.skipped.len() && p.skipped[k] == i as usize;
                        assert(after.skipped[k] == i as usize);
                    }
                }
            }
        }
    } else {
        let last = p.queue.len() as int;
        assert forall|k: int| 0 <= k < last implies after.queue[k] == p.queue[k] by {}
        assert(after.queue[last].index == index);
        assert forall|j: int, k: int| 0 <= j < k < after.queue.len() implies (
        #[trigger] after.queue[j]).index != (#[trigger] after.queue[k]).index by {
            assert(after.queue[j] == p.queue[j]);
            if k < last {
                assert(after.queue[k] == p.queue[k]);
            }
        }
        assert forall|j: int, k: int|
            0 <= j < after.queue.len() && 0 <= k < after.in_flight.len() implies (
        #[trigger] after.queue[j]).index != (#[trigger] after.in_flight[k]).index by {
            assert(after.in_flight[k] == p.in_flight[k]);
            if j < last {
                assert(after.queue[j] == p.queue[j]);
            }
        }
        assert forall|k: int| 0 <= k < after.queue.len() implies (
        #[trigger] after.queue[k]).index < after.resolved_count() by {
            if k < last {
                assert(after.queue[k] == p.queue[k]);
            }
        }
        assert forall|s: StoreView| p.accounted(s) implies #[trigger] after.accounted(s) by {
            assert forall|i: int| after.settled(i) implies s.bound(
                after.pending[i].gallery_id,
                after.pending[i].page,
            ) || after.skipped.contains(i as usize) by {
                if i == index {
                    assert(after.waiting(i));
                } else {
                    if p.waiting(i) {
                        if exists|k: int|
                            0 <= k < p.queue.len() && (#[trigger] p.queue[k]).index == i {
                            let k = choose|k: int|
                                0 <= k < p.queue.len() && (#[trigger] p.queue[k]).index == i;
                            assert(after.queue[k].index == i);
                        } else {
                            let k = choose|k: int|
                                0 <= k < p.in_flight.len() && (#[trigger] p.in_flight[k]).index
                                    == i;
                            assert(after.in_flight[k].index == i);
                        }
                        assert(after.waiting(i));
                    }
                    assert(p.settled(i));
                }
            }
        }
    }
}

/// Each job of stage B is found at one place only.
pub proof fn lemma_in_flight_pos(p: PipelineView, pos: int)
    requires
        p.wf(),
        0 <= pos < p.in_flight.len(),
    ensures
        p.in_flight_has(p.in_flight[pos].index),
        p.in_flight_pos(p.in_flight[pos].index) == pos,
{
    let index = p.in_flight[pos].index;
    let k = p.in_flight_pos(index);
    if k < pos {
        assert(p.in_flight[k].index != p.in_flight[pos].index);
    } else if pos < k {
        assert(p.in_flight[pos].index != p.in_flight[k].index);
    }
}

/// Taking note of what stage B re-hosted keeps the pipeline in order, and
/// with the image recorded and the page filled, the pages that have left
/// the pipeline are accounted for.
pub proof fn lemma_finish_upload(p: PipelineView, index: usize)
    requires
        p.wf(),
        p.expects_uploaded(index),
    ensures
        p.finish_upload(index).wf(),
        index < p.pending.len(),
        forall|s: StoreView, url: Seq<char>|
            p.accounted(s) ==> p.finish_upload(index).accounted(
                #[trigger] p.store_after_uploaded(s, index, url),
            ),
        forall|s: StoreView, url: Seq<char>|
            (#[trigger] p.store_after_uploaded(s, index, url)).extends(s),
        forall|s: StoreView, url: Seq<char>|
            (#[trigger] p.store_after_uploaded(s, index, url)).bound(
                p.pending[index as int].gallery_id,
                p.pending[index as int].page,
            ),
        forall|s: StoreView, url: Seq<char>|
            s.consistent() ==> (#[trigger] p.store_after_uploaded(s, index, url)).consistent(),
{
    let after = p.finish_upload(index);
    let pos = p.in_flight_pos(index);
    assert(p.in_flight[pos].index == index);
    assert forall|k: int| 0 <= k < after.in_flight.len() implies after.in_flight[k] == (if k
        < pos {
        p.in_flight[k]
    } else {
        p.in_flight[k + 1]
    }) by {}
    assert forall|k: int| 0 <= k < after.in_flight.len() implies (
    #[trigger] after.in_flight[k]).index < after.resolved_count() by {
        if k < pos {
            assert(after.in_flight[k] == p.in_flight[k]);
        } else {
            assert(after.in_flight[k] == p.in_flight[k + 1]);
        }
    }
    assert forall|j: int, k: int| 0 <= j < k < after.in_flight.len() implies (
    #[trigger] after.in_flight[j]).index != (#[trigger] after.in_flight[k]).index by {
        let j0 = if j < pos { j } else { j + 1 };
        let k0 = if k < pos { k } else { k + 1 };
        assert(after.in_flight[j] == p.in_flight[j0]);
        assert(after.in_flight[k] == p.in_flight[k0]);
    }
    assert forall|j: int, k: int|
        0 <= j < after.queue.len() && 0 <= k < after.in_flight.len() implies (
    #[trigger] after.queue[j]).index != (#[trigger] after.in_flight[k]).index by {
        let k0 = if k < pos { k } else { k + 1 };
        assert(after.in_flight[k] == p.in_flight[k0]);
        assert(after.queue[j] == p.queue[j]);
    }
    assert forall|s: StoreView, url: Seq<char>|
        p.accounted(s) implies after.accounted(
        #[trigger] p.store_after_uploaded(s, index, url),
    ) by {
        let later = p.store_after_uploaded(s, index, url);
        assert forall|i: int| after.settled(i) implies later.bound(
            after.pending[i].gallery_id,
            after.pending[i].page,
        ) || after.skipped.contains(i as usize) by {
            if i != index {
                if p.waiting(i) {
                    if exists|k: int|
                        0 <= k < p.queue.len() && (#[trigger] p.queue[k]).index == i {
                        let k = choose|k: int|
                            0 <= k < p.queue.len() && (#[trigger] p.queue[k]).index == i;
                        assert(after.queue[k].index == i);
                    } else {
                        let k = choose|k: int|
                            0 <= k < p.in_flight.len() && (#[trigger] p.in_flight[k]).index == i;
                        if k < pos {
                            assert(after.in_flight[k].index == i);
                        } else {
                            assert(k != pos);
                            assert(after.in_flight[k - 1].index == i);
                        }
                    }
                    assert(after.waiting(i));
                }
                assert(p.settled(i));
                let key = (p.pending[i].gallery_id, p.pending[i].page);
                if s.pages.dom().contains(key) {
                    assert(later.pages.dom().contains(key));
                }
            }
        }
    }
    assert forall|s: StoreView, url: Seq<char>|
        s.consistent() implies (#[trigger] p.store_after_uploaded(s, index, url)).consistent() by {
        let later = p.store_after_uploaded(s, index, url);
        assert forall|k: (i32, i32)| later.pages.dom().contains(k) implies later.images.dom().contains(
            later.pages[k],
        ) by {
            if s.pages.dom().contains(k) {
                assert(s.images.dom().contains(s.pages[k]));
            }
        }
    }
}

/// A failure keeps the pipeline in order and loses track of nothing.
pub proof fn lemma_after_failure(p: PipelineView)
    requires
        p.wf(),
    ensures
        p.after_failure().wf(),
        p.after_failure().status() == PipelineStatus::Failed,
        forall|s: StoreView| p.accounted(s) ==> #[trigger] p.after_failure().accounted(s),
{
    let after = p.after_failure();
    assert forall|s: StoreView| p.accounted(s) implies #[trigger] after.accounted(s) by {
        assert forall|i: int| after.settled(i) implies s.bound(
            after.pending[i].gallery_id,
            after.pending[i].page,
        ) || after.skipped.contains(i as usize) by {
            assert(after.queue == p.queue);
            assert(after.in_flight == p.in_flight);
            assert(p.settled(i));
        }
    }
}

impl View for AssetPipeline {
    type V = PipelineView;

    closed spec fn view(&self) -> PipelineView {
        PipelineView {
            pending: page_views(self.pending@),
            next: self.next as int,
            resolving: self.resolving,
            queue: resolved_views(self.queue@),
            in_flight: resolved_views(self.in_flight@),
            skipped: self.skipped@,
            workers: self.workers as int,
            skip_animated: self.skip_animated,
            failed: self.failed,
        }
    }
}

/// The name under which the image of `hash`, fetched from `url`, is re-hosted.
pub fn filename_of(hash: &String, url: &String) -> (name: String)
    ensures
        name@ == file_name(hash@, url@),
{
    let mut name: Vec<char> = chars_of(hash.as_str());
    name.push('.');
    let ext: Vec<char> = extension_of(&chars_of(url.as_str()));
    append_chars(&mut name, &ext);
    string_of(&name)
}

/// Whether `url` is the address of an animated image.
pub fn animated(url: &String) -> (yes: bool)
    ensures
        yes == is_animated(url@),
{
    let ext: Vec<char> = extension_of(&chars_of(url.as_str()));
    let yes = ext.len() == 3 && ext[0] == 'g' && ext[1] == 'i' && ext[2] == 'f';
    proof {
        if yes {
            assert(ext@ =~= seq!['g', 'i', 'f']);
        } else if ext@.len() == 3 {
            assert(seq!['g', 'i', 'f'][0] == 'g');
            assert(seq!['g', 'i', 'f'][1] == 'i');
            assert(seq!['g', 'i', 'f'][2] == 'f');
        } else {
            assert(seq!['g', 'i', 'f'].len() == 3);
        }
    }
    yes
}

impl AssetPipeline {
    pub closed spec fn wf(&self) -> bool {
        &&& self@.wf()
        &&& 2 * self.workers <= usize::MAX
    }

    /// A well-formed pipeline has a well-formed view.
    pub proof fn lemma_wf(&self)
        requires
            self.wf(),
        ensures
            self@.wf(),
            self@.workers <= usize::MAX / 2,
    {
    }

    /// Fills the pages of `pages` whose image the store holds and sets up
    /// the pipeline for the others. Stage B gets `workers` workers.
    pub fn start(store: &mut Store, pages: &Vec<EhPageUrl>, workers: usize, skip_animated: bool) -> (pipeline:
        Self)
        requires
            old(store).wf(),
            1 <= workers,
            2 * workers <= usize::MAX,
        ensures
            final(store).wf(),
            pipeline.wf(),
            final(store)@ == bind_known(old(store)@, page_views(pages@)),
            pipeline@ == PipelineView::fresh(
                unknown_pages(old(store)@, page_views(pages@)),
                workers as int,
                skip_animated,
            ),
            final(store)@.extends(old(store)@),
            pipeline@.accounted(final(store)@),
    {
        let mut pending: Vec<EhPageUrl> = Vec::new();
        let mut i: usize = 0;
        while i < pages.len()
            invariant
                i <= pages@.len(),
                store.wf(),
                store@ == bind_known(old(store)@, page_views(pages@).take(i as int)),
                page_views(pending@) == unknown_pages(old(store)@, page_views(pages@).take(i as int)),
            decreases pages@.len() - i,
        {
            let page = &pages[i];
            proof {
                let all = page_views(pages@);
                assert(all.take(i + 1).drop_last() =~= all.take(i as int));
                assert(all.take(i + 1).last() == page@);
                lemma_bind_known_extends(old(store)@, all.take(i as int));
            }
            if store.image(&page.hash).is_some() {
                store.bind_page(page.gallery_id, page.page, &page.hash);
            } else {
                let ghost before = page_views(pending@);
                pending.push(page.duplicate());
                assert(page_views(pending@) =~= before.push(page@));
            }
            i += 1;
        }
        proof {
            assert(page_views(pages@).take(pages@.len() as int) =~= page_views(pages@));
            lemma_bind_known_extends(old(store)@, page_views(pages@));
        }
        let pipeline = AssetPipeline {
            pending,
            next: 0,
            resolving: false,
            queue: Vec::new(),
            in_flight: Vec::new(),
            skipped: Vec::new(),
            workers,
            skip_animated,
            failed: false,
        };
        proof {
            vstd::std_specs::vec::axiom_spec_len(&pipeline.pending);
            assert(pipeline@.pending.len() == pipeline.pending@.len());
            assert(pipeline@.queue =~= Seq::<ResolvedView>::empty());
            assert(pipeline@.in_flight =~= Seq::<ResolvedView>::empty());
            assert(pipeline@.skipped =~= Seq::<usize>::empty());
        }
        pipeline
    }

    /// How the run stands.
    pub fn status(&self) -> (status: PipelineStatus)
        requires
            self.wf(),
        ensures
            status == self@.status(),
    {
        if self.failed {
            PipelineStatus::Failed
        } else if self.next == self.pending.len() && !self.resolving && self.queue.len() == 0
            && self.in_flight.len() == 0 {
            PipelineStatus::Done
        } else {
            PipelineStatus::Running
        }
    }

    /// How many resolved pages wait for stage B.
    pub fn queued(&self) -> (n: usize)
        requires
            self.wf(),
        ensures
            n == self@.queue.len(),
            n <= self@.capacity(),
    {
        self.queue.len()
    }

    /// The most resolved pages that wait for stage B at a time.
    pub fn capacity(&self) -> (n: usize)
        requires
            self.wf(),
        ensures
            n == self@.capacity(),
    {
        2 * self.workers
    }

    /// How many pages the store did not hold an image for.
    pub fn pending_count(&self) -> (n: usize)
        requires
            self.wf(),
        ensures
            n == self@.pending.len(),
    {
        self.pending.len()
    }

    /// The pages left out as animated, as positions among the pages to fetch.
    pub fn skipped(&self) -> (skipped: &Vec<usize>)
        requires
            self.wf(),
        ensures
            skipped@ == self@.skipped,
    {
        &self.skipped
    }

    /// The next piece of outside work to start, if any can start now. Stage A
    /// goes first; the driver asks again until nothing is left to start.
    pub fn next_action(&mut self) -> (action: Option<PipelineAction>)
        requires
            old(self).wf(),
        ensures
            final(self).wf(),
            match action {
                Some(PipelineAction::Resolve(page)) => {
                    &&& old(self)@.can_resolve()
                    &&& page@ == old(self)@.pending[old(self)@.next]
                    &&& final(self)@ == old(self)@.start_resolve()
                },
                Some(PipelineAction::Upload(job)) => {
                    &&& !old(self)@.can_resolve()
                    &&& old(self)@.can_upload()
                    &&& job@ == old(self)@.job_of(old(self)@.queue[0])
                    &&& final(self)@ == old(self)@.start_upload()
                },
                None => {
                    &&& !old(self)@.can_resolve()
                    &&& !old(self)@.can_upload()
                    &&& final(self)@ == old(self)@
                },
            },
    {
        if self.failed {
            return None;
        }
        if !self.resolving && self.next < self.pending.len() && self.queue.len() < 2
            * self.workers {
            let page = self.pending[self.next].duplicate();
            self.next = self.next + 1;
            self.resolving = true;
            proof {
                assert(self@ == old(self)@.start_resolve());
                lemma_start_resolve(old(self)@);
            }
            return Some(PipelineAction::Resolve(page));
        }
        if self.in_flight.len() < self.workers && self.queue.len() > 0 {
            assert(old(self)@.queue[0] == self.queue@[0]@);
            let entry = self.queue.remove(0);
            let page = self.pending[entry.index].duplicate();
            let job = UploadJob {
                index: entry.index,
                filename: filename_of(&page.hash, &entry.url),
                page,
                fileindex: entry.fileindex,
                url: entry.url.clone(),
            };
            self.in_flight.push(entry);
            proof {
                let before = old(self)@;
                assert(self@.queue =~= before.queue.drop_first());
                assert(self@.in_flight =~= before.in_flight.push(before.queue[0]));
                assert(self@ == before.start_upload());
                lemma_start_upload(before);
            }
            return Some(PipelineAction::Upload(job));
        }
        None
    }

    /// Stage A has resolved its page: the image has index `fileindex` at the
    /// catalog and can be fetched from `url`. Says whether the pipeline took
    /// note; it does not after a failure, nor when stage A was not at work.
    pub fn resolved(&mut self, fileindex: u32, url: String) -> (noted: bool)
        requires
            old(self).wf(),
        ensures
            final(self).wf(),
            noted == old(self)@.expects_resolved(),
            final(self)@ == old(self)@.after_resolved(fileindex, url@),
    {
        if self.failed || !self.resolving {
            return false;
        }
        let index: usize = self.next - 1;
        self.resolving = false;
        if self.skip_animated && animated(&url) {
            self.skipped.push(index);
        } else {
            let ghost entry = ResolvedView { index, fileindex, url: url@ };
            self.queue.push(Resolved { index, fileindex, url });
            assert(self@.queue =~= old(self)@.queue.push(entry));
        }
        proof {
            assert(self@ == old(self)@.finish_resolve(fileindex, url@));
            lemma_finish_resolve(old(self)@, fileindex, url@);
        }
        true
    }

    /// Stage B has re-hosted the image of job `index` at `url`: the image
    /// is recorded under the hash of its content, unless the store holds it
    /// by now, and the page is filled. Says whether the pipeline took note;
    /// it does not after a failure, nor for a job that stage B was not at
    /// work on, and then the store stays as it was.
    pub fn uploaded(&mut self, store: &mut Store, index: usize, url: String) -> (noted: bool)
        requires
            old(self).wf(),
            old(store).wf(),
        ensures
            final(self).wf(),
            final(store).wf(),
            noted == old(self)@.expects_uploaded(index),
            final(self)@ == old(self)@.after_uploaded(index),
            final(store)@ == old(self)@.store_after_uploaded(old(store)@, index, url@),
            final(store)@.extends(old(store)@),
    {
        if self.failed {
            return false;
        }
        let mut pos: usize = 0;
        while pos < self.in_flight.len() && self.in_flight[pos].index != index
            invariant
                pos <= self.in_flight@.len(),
                forall|k: int| 0 <= k < pos ==> (#[trigger] self.in_flight@[k]).index != index,
            decreases self.in_flight@.len() - pos,
        {
            pos += 1;
        }
        if pos == self.in_flight.len() {
            proof {
                if self@.in_flight_has(index) {
                    let k = self@.in_flight_pos(index);
                    assert(self@.in_flight[k] == self.in_flight@[k]@);
                }
            }
            return false;
        }
        proof {
            let before = old(self)@;
            assert(before.in_flight[pos as int] == self.in_flight@[pos as int]@);
            lemma_in_flight_pos(before, pos as int);
        }
        let entry = self.in_flight.remove(pos);
        let page = &self.pending[index];
        assert(page@ == old(self)@.pending[index as int]);
        store.add_image(page.hash.clone(), ImageEntity { fileindex: entry.fileindex, url });
        store.bind_page(page.gallery_id, page.page, &page.hash);
        proof {
            let before = old(self)@;
            assert(self@.in_flight =~= before.in_flight.remove(pos as int));
            assert(self@ == before.finish_upload(index));
            lemma_finish_upload(before, index);
        }
        true
    }

    /// A stage has failed: the run is over. What the store holds stays.
    pub fn fail(&mut self)
        requires
            old(self).wf(),
        ensures
            final(self).wf(),
            final(self)@ == old(self)@.after_failure(),
    {
        self.failed = true;
        proof {
            assert(self@ == old(self)@.after_failure());
            lemma_after_failure(old(self)@);
        }
    }
}

/// The queue never holds more than twice as many entries as stage B has
/// workers, and stage B never works on more images than it has workers.
pub proof fn lemma_backpressure(p: PipelineView)
    requires
        p.wf(),
    ensures
        p.queue.len() <= 2 * p.workers,
        p.in_flight.len() <= p.workers,
        p.queue.len() == p.capacity() ==> !p.can_resolve(),
{
}

/// When the run is done, every page that the pipeline was set up for is
/// filled, or was left out as animated.
pub proof fn lemma_done_all_filled(p: PipelineView, store: StoreView)
    requires
        p.wf(),
        p.accounted(store),
        p.status() == PipelineStatus::Done,
    ensures
        forall|i: int|
            0 <= i < p.pending.len() ==> store.bound(
                (#[trigger] p.pending[i]).gallery_id,
                p.pending[i].page,
            ) || p.skipped.contains(i as usize),
        !p.skip_animated && p.skipped.len() == 0 ==> forall|i: int|
            0 <= i < p.pending.len() ==> store.bound(
                (#[trigger] p.pending[i]).gallery_id,
                p.pending[i].page,
            ),
{
    assert forall|i: int| 0 <= i < p.pending.len() implies store.bound(
        (#[trigger] p.pending[i]).gallery_id,
        p.pending[i].page,
    ) || p.skipped.contains(i as usize) by {
        assert(p.settled(i));
    }
}

/// After a failure nothing can be started, and the run stays failed
/// whatever is reported to it.
pub proof fn lemma_failure_is_final(p: PipelineView, fileindex: u32, url: Seq<char>)
    requires
        p.failed,
    ensures
        p.status() == PipelineStatus::Failed,
        !p.can_resolve(),
        !p.can_upload(),
        p.start_resolve().failed,
        p.start_upload().failed,
        p.finish_resolve(fileindex, url).failed,
{
}

/// A store that has gained rows still accounts for the pages that have left
/// the pipeline: what was recorded stays recorded.
pub proof fn lemma_accounted_in_later_store(p: PipelineView, earlier: StoreView, later: StoreView)
    requires
        p.accounted(earlier),
        later.extends(earlier),
    ensures
        p.accounted(later),
{
    assert forall|i: int| #[trigger] p.settled(i) implies later.bound(
        p.pending[i].gallery_id,
        p.pending[i].page,
    ) || p.skipped.contains(i as usize) by {
        let key = (p.pending[i].gallery_id, p.pending[i].page);
        if earlier.pages.dom().contains(key) {
            assert(later.pages.dom().contains(key));
        }
    }
}

/// Setting up the pipeline fills every page whose image the store holds.
pub proof fn lemma_known_pages_filled(store: StoreView, pages: Seq<PageView>, i: int)
    requires
        0 <= i < pages.len(),
        store.images.dom().contains(pages[i].hash),
    ensures
        bind_known(store, pages).bound(pages[i].gallery_id, pages[i].page),
    decreases pages.len(),
{
    lemma_bind_known_extends(store, pages.drop_last());
    if i < pages.len() - 1 {
        lemma_known_pages_filled(store, pages.drop_last(), i);
    }
}

/// Every page that the pipeline is set up for is one whose image the store
/// does not hold, and every page whose image the store does not hold is one
/// that the pipeline is set up for.
pub proof fn lemma_unknown_pages(store: StoreView, pages: Seq<PageView>)
    ensures
        forall|k: int|
            0 <= k < unknown_pages(store, pages).len() ==> !store.images.dom().contains(
                (#[trigger] unknown_pages(store, pages)[k]).hash,
            ) && pages.contains(unknown_pages(store, pages)[k]),
        forall|i: int|
            0 <= i < pages.len() && !store.images.dom().contains((#[trigger] pages[i]).hash)
                ==> unknown_pages(store, pages).contains(pages[i]),
        unknown_pages(store, pages).len() <= pages.len(),
    decreases pages.len(),
{
    if pages.len() > 0 {
        let shorter = pages.drop_last();
        let p = pages.last();
        lemma_unknown_pages(store, shorter);
        let before = unknown_pages(store, shorter);
        let all = unknown_pages(store, pages);
        assert forall|k: int| 0 <= k < all.len() implies !store.images.dom().contains(
            (#[trigger] all[k]).hash,
        ) && pages.contains(all[k]) by {
            if k < before.len() {
                assert(all[k] == before[k]);
                let j = choose|j: int| 0 <= j < shorter.len() && shorter[j] == before[k];
                assert(pages[j] == before[k]);
            } else {
                assert(pages[pages.len() - 1] == p);
            }
        }
        assert forall|i: int|
            0 <= i < pages.len() && !store.images.dom().contains(
                (#[trigger] pages[i]).hash,
            ) implies all.contains(pages[i]) by {
            if i < shorter.len() {
                assert(shorter[i] == pages[i]);
                let k = choose|k: int| 0 <= k < before.len() && before[k] == shorter[i];
                assert(all[k] == pages[i]);
            } else {
                assert(all[all.len() - 1] == p);
            }
        }
    }
}

/// An image that two galleries share is held once: when the first gallery
/// has recorded it, setting up the pipeline for a page of the second with
/// the same content fills that page from the image held, sets nothing aside
/// to fetch, and leaves the images as they are.
pub proof fn lemma_shared_image_held_once(
    store: StoreView,
    first: PageView,
    second: PageView,
    image: ImageView,
)
    requires
        first.hash == second.hash,
        !store.images.dom().contains(first.hash),
        !store.bound(first.gallery_id, first.page),
        !store.bound(second.gallery_id, second.page),
        (first.gallery_id, first.page) != (second.gallery_id, second.page),
    ensures
        ({
            let recorded = store.with_image(first.hash, image).with_page(
                first.gallery_id,
                first.page,
                first.hash,
            );
            let shared = bind_known(recorded, seq![second]);
            &&& unknown_pages(recorded, seq![second]) == Seq::<PageView>::empty()
            &&& shared.images == store.images.insert(first.hash, image)
            &&& shared.pages == store.pages.insert(
                (first.gallery_id, first.page),
                first.hash,
            ).insert((second.gallery_id, second.page), first.hash)
        }),
{
    let recorded = store.with_image(first.hash, image).with_page(
        first.gallery_id,
        first.page,
        first.hash,
    );
    let one = seq![second];
    assert(one.drop_last() =~= Seq::<PageView>::empty());
    assert(one.last() == second);
    assert(bind_known(recorded, one.drop_last()) == recorded);
    assert(unknown_pages(recorded, one.drop_last()) =~= Seq::<PageView>::empty());
}

} // verus!

use gallery_sync::gallery::EhPageUrl;
use gallery_sync::pipeline::{
    animated, filename_of, AssetPipeline, PipelineAction, PipelineStatus, UploadJob,
};
use gallery_sync::store::{ImageEntity, Store};

fn pages_of(gallery_id: i32, hashes: &[&str]) -> Vec<EhPageUrl> {
    hashes
        .iter()
        .enumerate()
        .map(|(i, h)| EhPageUrl::new(h.to_string(), gallery_id, i as i32 + 1))
        .collect()
}

fn expect_resolve(action: Option<PipelineAction>) -> EhPageUrl {
    match action {
        Some(PipelineAction::Resolve(page)) => page,
        other => panic!("expected a page to resolve, got {:?}", other),
    }
}

fn expect_upload(action: Option<PipelineAction>) -> UploadJob {
    match action {
        Some(PipelineAction::Upload(job)) => job,
        other => panic!("expected an image to upload, got {:?}", other),
    }
}

/// Runs the pipeline to its end against a catalog and a host that always
/// succeed; returns how many images were uploaded.
fn run_to_the_end(pipeline: &mut AssetPipeline, store: &mut Store) -> usize {
    let mut uploads = 0;
    while pipeline.status() == PipelineStatus::Running {
        match pipeline.next_action() {
            Some(PipelineAction::Resolve(page)) => {
                let url = format!("https://catalog/{}.jpg?fileindex={}", page.hash, page.page);
                assert!(pipeline.resolved(page.page as u32, url));
            }
            Some(PipelineAction::Upload(job)) => {
                uploads += 1;
                assert!(pipeline.uploaded(store, job.index, format!("https://host/{}", job.filename)));
            }
            None => panic!("the pipeline runs but has nothing to start"),
        }
    }
    uploads
}

#[test]
fn every_unknown_page_is_uploaded_and_filled() {
    let mut store = Store::new();
    let pages = pages_of(7, &["a", "b", "c"]);
    let mut pipeline = AssetPipeline::start(&mut store, &pages, 2, false);
    assert_eq!(pipeline.pending_count(), 3);
    assert_eq!(pipeline.capacity(), 4);
    assert_eq!(run_to_the_end(&mut pipeline, &mut store), 3);
    assert_eq!(pipeline.status(), PipelineStatus::Done);
    assert_eq!(store.image_count(), 3);
    assert_eq!(store.page_count(), 3);
    assert_eq!(store.page(7, 1).unwrap(), "a");
    assert_eq!(store.page(7, 2).unwrap(), "b");
    assert_eq!(store.page(7, 3).unwrap(), "c");
    let image = store.image(&"b".to_string()).unwrap();
    assert_eq!(image.fileindex, 2);
    assert_eq!(image.url, "https://host/b.jpg?fileindex=2");
}

#[test]
fn a_gallery_without_unknown_pages_is_done_at_once() {
    let mut store = Store::new();
    store.add_image("a".to_string(), ImageEntity { fileindex: 1, url: "u".to_string() });
    let pages = pages_of(7, &["a"]);
    let mut pipeline = AssetPipeline::start(&mut store, &pages, 1, false);
    assert_eq!(pipeline.status(), PipelineStatus::Done);
    assert!(pipeline.next_action().is_none());
    assert_eq!(store.page(7, 1).unwrap(), "a");
    let empty: Vec<EhPageUrl> = Vec::new();
    let pipeline = AssetPipeline::start(&mut store, &empty, 1, false);
    assert_eq!(pipeline.status(), PipelineStatus::Done);
}

#[test]
fn the_same_content_in_two_galleries_is_held_once() {
    let mut store = Store::new();
    let first = pages_of(1, &["same"]);
    let mut pipeline = AssetPipeline::start(&mut store, &first, 1, false);
    assert_eq!(run_to_the_end(&mut pipeline, &mut store), 1);
    assert_eq!(store.image_count(), 1);
    assert_eq!(store.page_count(), 1);

    let second = pages_of(2, &["same"]);
    let mut pipeline = AssetPipeline::start(&mut store, &second, 1, false);
    assert_eq!(pipeline.pending_count(), 0);
    assert_eq!(run_to_the_end(&mut pipeline, &mut store), 0);
    assert_eq!(store.image_count(), 1);
    assert_eq!(store.page_count(), 2);
    assert_eq!(store.page(1, 1).unwrap(), "same");
    assert_eq!(store.page(2, 1).unwrap(), "same");
}

#[test]
fn the_same_content_twice_in_one_gallery_is_recorded_once() {
    let mut store = Store::new();
    let pages = pages_of(1, &["x", "x"]);
    let mut pipeline = AssetPipeline::start(&mut store, &pages, 1, false);
    // Neither was known when the gallery was looked at, so both are fetched.
    assert_eq!(run_to_the_end(&mut pipeline, &mut store), 2);
    assert_eq!(store.image_count(), 1);
    assert_eq!(store.page_count(), 2);
    // The first upload is the one that stays.
    assert_eq!(store.image(&"x".to_string()).unwrap().fileindex, 1);
}

#[test]
fn stage_a_rests_while_the_queue_is_full() {
    let mut store = Store::new();
    let pages = pages_of(1, &["a", "b", "c", "d", "e"]);
    let mut pipeline = AssetPipeline::start(&mut store, &pages, 1, false);
    assert_eq!(pipeline.capacity(), 2);
    // Stage A resolves two pages; stage B is not started yet.
    let page = expect_resolve(pipeline.next_action());
    assert_eq!(page.page, 1);
    assert!(pipeline.resolved(1, "u1.jpg".to_string()));
    let job = expect_upload({
        let page = expect_resolve(pipeline.next_action());
        assert_eq!(page.page, 2);
        assert!(pipeline.resolved(2, "u2.jpg".to_string()));
        // With one entry queued and one resolved, the queue holds two.
        assert_eq!(pipeline.queued(), 2);
        // The queue is full: the next thing to start is an upload, not a third page.
        pipeline.next_action()
    });
    assert_eq!(job.index, 0);
    assert_eq!(pipeline.queued(), 1);
    // Now there is room again, and stage A goes on.
    let page = expect_resolve(pipeline.next_action());
    assert_eq!(page.page, 3);
    assert!(pipeline.resolved(3, "u3.jpg".to_string()));
    assert_eq!(pipeline.queued(), 2);
    // Stage B has one worker and it is busy; stage A has no room: nothing starts.
    assert!(pipeline.next_action().is_none());
    assert_eq!(pipeline.status(), PipelineStatus::Running);
    assert!(pipeline.uploaded(&mut store, 0, "h1".to_string()));
    let job = expect_upload(pipeline.next_action());
    assert_eq!(job.index, 1);
}

#[test]
fn stage_a_resolves_one_page_at_a_time() {
    let mut store = Store::new();
    let pages = pages_of(1, &["a", "b"]);
    let mut pipeline = AssetPipeline::start(&mut store, &pages, 4, false);
    expect_resolve(pipeline.next_action());
    assert!(pipeline.next_action().is_none());
    // A report that stage A did not ask for is not taken.
    assert!(pipeline.resolved(1, "u.jpg".to_string()));
    assert!(!pipeline.resolved(1, "u.jpg".to_string()));
    assert_eq!(pipeline.queued(), 1);
}

#[test]
fn several_workers_upload_at_the_same_time() {
    let mut store = Store::new();
    let pages = pages_of(1, &["a", "b", "c"]);
    let mut pipeline = AssetPipeline::start(&mut store, &pages, 2, false);
    for n in 1..=3u32 {
        expect_resolve(pipeline.next_action());
        assert!(pipeline.resolved(n, format!("u{}.png", n)));
    }
    let first = expect_upload(pipeline.next_action());
    let second = expect_upload(pipeline.next_action());
    // Both workers are busy.
    assert!(pipeline.next_action().is_none());
    assert_eq!(first.index, 0);
    assert_eq!(second.index, 1);
    assert_eq!(second.filename, "b.png");
    assert_eq!(second.url, "u2.png");
    assert_eq!(second.fileindex, 2);
    assert_eq!(second.page.page, 2);
    // The second worker finishes first.
    assert!(pipeline.uploaded(&mut store, 1, "host/b".to_string()));
    assert!(store.page(1, 1).is_none());
    assert_eq!(store.page(1, 2).unwrap(), "b");
    let third = expect_upload(pipeline.next_action());
    assert_eq!(third.index, 2);
    assert!(pipeline.uploaded(&mut store, 0, "host/a".to_string()));
    assert!(pipeline.uploaded(&mut store, 2, "host/c".to_string()));
    assert_eq!(pipeline.status(), PipelineStatus::Done);
    assert_eq!(store.page_count(), 3);
}

#[test]
fn a_report_for_a_job_that_is_not_under_way_is_not_taken() {
    let mut store = Store::new();
    let pages = pages_of(1, &["a"]);
    let mut pipeline = AssetPipeline::start(&mut store, &pages, 1, false);
    assert!(!pipeline.uploaded(&mut store, 0, "host/a".to_string()));
    expect_resolve(pipeline.next_action());
    assert!(pipeline.resolved(1, "u.jpg".to_string()));
    assert!(!pipeline.uploaded(&mut store, 0, "host/a".to_string()));
    assert_eq!(store.image_count(), 0);
    expect_upload(pipeline.next_action());
    assert!(!pipeline.uploaded(&mut store, 5, "host/a".to_string()));
    assert!(pipeline.uploaded(&mut store, 0, "host/a".to_string()));
    assert!(!pipeline.uploaded(&mut store, 0, "host/a".to_string()));
    assert_eq!(store.image_count(), 1);
}

#[test]
fn a_failure_of_stage_a_ends_the_run_and_keeps_what_was_recorded() {
    let mut store = Store::new();
    let hashes = ["img1", "img2", "img3", "img4", "img5", "img6", "img7", "img8", "img9", "img10"];
    let pages = pages_of(9, &hashes);
    let mut pipeline = AssetPipeline::start(&mut store, &pages, 1, false);
    assert_eq!(pipeline.pending_count(), 10);
    // Stage A resolves two pages, which fills the queue.
    for n in 1..=2u32 {
        let page = expect_resolve(pipeline.next_action());
        assert_eq!(page.page, n as i32);
        assert!(pipeline.resolved(n, format!("u{}.jpg", n)));
    }
    // Stage B handles the first.
    let job = expect_upload(pipeline.next_action());
    assert_eq!(job.index, 0);
    assert!(pipeline.uploaded(&mut store, 0, "host/1".to_string()));
    // Stage A resolves the third.
    let page = expect_resolve(pipeline.next_action());
    assert_eq!(page.page, 3);
    assert!(pipeline.resolved(3, "u3.jpg".to_string()));
    // Stage B handles the second and starts on the third.
    let job = expect_upload(pipeline.next_action());
    assert_eq!(job.index, 1);
    assert!(pipeline.uploaded(&mut store, 1, "host/2".to_string()));
    let page = expect_resolve(pipeline.next_action());
    assert_eq!(page.page, 4);
    let job = expect_upload(pipeline.next_action());
    assert_eq!(job.index, 2);
    // Stage A fails on the fourth page, after it has resolved three of ten.
    pipeline.fail();
    assert_eq!(pipeline.status(), PipelineStatus::Failed);
    // Nothing more is started, and what stage B still reports is not recorded.
    assert!(pipeline.next_action().is_none());
    assert!(!pipeline.uploaded(&mut store, 2, "host/3".to_string()));
    assert!(!pipeline.resolved(4, "u4.jpg".to_string()));
    // The two pages that were through stay.
    assert_eq!(store.image_count(), 2);
    assert_eq!(store.page_count(), 2);
    assert_eq!(store.page(9, 1).unwrap(), "img1");
    assert_eq!(store.page(9, 2).unwrap(), "img2");
    assert!(store.page(9, 3).is_none());
    assert_eq!(store.image(&"img2".to_string()).unwrap().url, "host/2");
    assert_eq!(pipeline.status(), PipelineStatus::Failed);
}

#[test]
fn a_failure_of_stage_b_ends_the_run_as_well() {
    let mut store = Store::new();
    let pages = pages_of(9, &["img1", "img2"]);
    let mut pipeline = AssetPipeline::start(&mut store, &pages, 1, false);
    expect_resolve(pipeline.next_action());
    assert!(pipeline.resolved(1, "u1.jpg".to_string()));
    expect_resolve(pipeline.next_action());
    expect_upload(pipeline.next_action());
    pipeline.fail();
    assert_eq!(pipeline.status(), PipelineStatus::Failed);
    assert!(pipeline.next_action().is_none());
    assert!(!pipeline.resolved(2, "u2.jpg".to_string()));
    assert_eq!(store.image_count(), 0);
    assert_eq!(store.page_count(), 0);
}

#[test]
fn the_next_run_fetches_only_what_is_still_missing() {
    let mut store = Store::new();
    let pages = pages_of(9, &["img1", "img2", "img3"]);
    let mut pipeline = AssetPipeline::start(&mut store, &pages, 1, false);
    expect_resolve(pipeline.next_action());
    assert!(pipeline.resolved(1, "u.jpg".to_string()));
    expect_resolve(pipeline.next_action());
    let job = expect_upload(pipeline.next_action());
    assert!(pipeline.uploaded(&mut store, job.index, "host/1".to_string()));
    pipeline.fail();

    let mut again = AssetPipeline::start(&mut store, &pages, 1, false);
    assert_eq!(again.pending_count(), 2);
    assert_eq!(run_to_the_end(&mut again, &mut store), 2);
    assert_eq!(store.image_count(), 3);
    assert_eq!(store.page_count(), 3);
    // The first page kept the image of the first run.
    assert_eq!(store.image(&"img1".to_string()).unwrap().url, "host/1");
}

#[test]
fn animated_images_are_left_out_where_the_policy_says_so() {
    let mut store = Store::new();
    let pages = pages_of(3, &["still", "moving", "last"]);
    let mut pipeline = AssetPipeline::start(&mut store, &pages, 1, true);
    expect_resolve(pipeline.next_action());
    assert!(pipeline.resolved(1, "https://c/still.jpg".to_string()));
    expect_resolve(pipeline.next_action());
    assert!(pipeline.resolved(2, "https://c/moving.gif".to_string()));
    assert_eq!(pipeline.queued(), 1);
    expect_resolve(pipeline.next_action());
    assert!(pipeline.resolved(3, "https://c/last.png".to_string()));
    assert_eq!(run_to_the_end(&mut pipeline, &mut store), 2);
    assert_eq!(pipeline.status(), PipelineStatus::Done);
    assert_eq!(pipeline.skipped(), &vec![1usize]);
    assert!(store.page(3, 2).is_none());
    assert_eq!(store.page(3, 1).unwrap(), "still");
    assert_eq!(store.page(3, 3).unwrap(), "last");
    assert_eq!(store.image_count(), 2);
}

#[test]
fn animated_images_are_uploaded_where_the_policy_is_off() {
    let mut store = Store::new();
    let pages = pages_of(3, &["moving"]);
    let mut pipeline = AssetPipeline::start(&mut store, &pages, 1, false);
    expect_resolve(pipeline.next_action());
    assert!(pipeline.resolved(2, "https://c/moving.gif".to_string()));
    let job = expect_upload(pipeline.next_action());
    assert_eq!(job.filename, "moving.gif");
    assert!(pipeline.uploaded(&mut store, 0, "host/m".to_string()));
    assert!(pipeline.skipped().is_empty());
    assert_eq!(store.page(3, 1).unwrap(), "moving");
}

#[test]
fn the_file_name_is_the_hash_with_the_extension_of_the_address() {
    let name = |hash: &str, url: &str| filename_of(&hash.to_string(), &url.to_string());
    assert_eq!(name("abc", "https://h.example/x/y/picture.jpg"), "abc.jpg");
    assert_eq!(name("abc", "https://h.example/picture.tar.png"), "abc.png");
    assert_eq!(name("abc", "picture."), "abc.");
    // Without a dot the whole address counts as the extension.
    assert_eq!(name("abc", "picture"), "abc.picture");
    assert_eq!(name("abc", ""), "abc.");
    assert_eq!(name("", "a.b"), ".b");
}

#[test]
fn an_address_is_animated_when_it_ends_in_gif() {
    assert!(animated(&"https://c/a.gif".to_string()));
    assert!(animated(&"gif".to_string()));
    assert!(!animated(&"https://c/a.gifv".to_string()));
    assert!(!animated(&"https://c/a.GIF".to_string()));
    assert!(!animated(&"https://c/a.jpg".to_string()));
    assert!(!animated(&"https://c/gif.".to_string()));
    assert!(!animated(&"".to_string()));
}

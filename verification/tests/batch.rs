use gallery_sync::batch::Batch;
use gallery_sync::gallery::{EhGallery, EhGalleryUrl, EhPageUrl, GalleryEntity};
use gallery_sync::scan::{ScanReply, ScanRequest};
use gallery_sync::schedule::Date;
use gallery_sync::store::{MessageEntity, Store};
use gallery_sync::trans::EhTagTransDB;
use gallery_sync::uploader::{Config, ExloliUploader, Reply, Request};
use indexmap::IndexMap;

fn item(id: i32) -> EhGalleryUrl {
    EhGalleryUrl::new(id, format!("t{}", id), 0)
}

fn detail(id: i32) -> EhGallery {
    EhGallery {
        url: item(id),
        title: format!("Gallery {}", id),
        title_jp: None,
        parent: None,
        tags: IndexMap::new(),
        favorite: 0,
        pages: vec![EhPageUrl::new(format!("hash{}", id), id, 1)],
        posted: 0,
        cover: 0,
    }
}

#[derive(Debug, PartialEq)]
enum Did {
    Fetch(i32),
    Upload(String),
    Publish,
    Send,
    Edit(i32),
    Check(String),
    Pause,
}

struct Outside {
    did: Vec<Did>,
    broken: Vec<i32>,
    gone: Vec<String>,
}

fn respond(outside: &mut Outside, request: ScanRequest) -> ScanReply {
    match request {
        ScanRequest::Search { .. } => panic!("a batch does not search"),
        ScanRequest::Pause { seconds } => {
            assert_eq!(seconds, 1);
            outside.did.push(Did::Pause);
            ScanReply::Paused
        }
        ScanRequest::Work(request) => ScanReply::Work(match request {
            Request::Fetch(url) => {
                outside.did.push(Did::Fetch(url.id));
                if outside.broken.contains(&url.id) {
                    Reply::Failed
                } else {
                    Reply::Gallery(detail(url.id))
                }
            }
            Request::Resolve(page) => Reply::Resolved { fileindex: 1, url: format!("u/{}.jpg", page.hash) },
            Request::Upload(job) => {
                outside.did.push(Did::Upload(job.filename.clone()));
                Reply::Uploaded { index: job.index, url: format!("f/{}", job.filename) }
            }
            Request::Publish { .. } => {
                outside.did.push(Did::Publish);
                Reply::Published { url: "https://telegra.ph/new".to_string() }
            }
            Request::Send { .. } => {
                outside.did.push(Did::Send);
                Reply::Sent { message_id: 900, date: Date::new(2024, 6, 14).unwrap() }
            }
            Request::Edit { message_id, .. } => {
                outside.did.push(Did::Edit(message_id));
                Reply::Edited
            }
            Request::Check { url } => {
                outside.did.push(Did::Check(url.clone()));
                Reply::Status { code: if outside.gone.contains(&url) { 404 } else { 200 } }
            }
        }),
    }
}

fn run_through(uploader: &mut ExloliUploader, outside: &mut Outside, mut batch: Batch) -> Batch {
    let mut steps = 0;
    while !batch.finished() {
        let mut replies = Vec::new();
        while let Some(request) = batch.poll() {
            replies.push(respond(outside, request));
        }
        assert!(!replies.is_empty(), "the batch runs but asks for nothing");
        for reply in replies {
            batch = uploader.proceed(batch, reply);
        }
        steps += 1;
        assert!(steps < 1000);
    }
    batch
}

fn engine_over(store: Store) -> ExloliUploader {
    let config = Config { threads_num: 1, search_count: 1, skip_animated: false };
    ExloliUploader::new(config, store, EhTagTransDB::new(), "author".to_string(), "hash").unwrap()
}

fn outside() -> Outside {
    Outside { did: Vec::new(), broken: Vec::new(), gone: Vec::new() }
}

fn announce(store: &mut Store, id: i32, article: &str) {
    store.put_gallery(GalleryEntity::of(&detail(id)));
    store.put_message(id, MessageEntity { id: 100 + id, publish_date: Date::new(2024, 6, 1).unwrap() });
    store.put_telegraph(id, article.to_string());
}

#[test]
fn an_empty_batch_is_over_at_once() {
    let uploader = engine_over(Store::new());
    let mut batch = uploader.batch_reupload(Vec::new());
    assert!(batch.finished());
    assert!(batch.poll().is_none());
    assert!(batch.current().is_none());
    assert!(uploader.batch_recheck(Vec::new()).finished());
}

#[test]
fn a_batch_uploads_each_gallery_again_even_when_it_was_announced() {
    let mut store = Store::new();
    announce(&mut store, 5, "https://telegra.ph/old");
    let mut uploader = engine_over(store);
    let mut world = outside();
    let batch = uploader.batch_reupload(vec![item(5), item(6)]);
    assert_eq!(batch.current().unwrap().id, 5);
    let batch = run_through(&mut uploader, &mut world, batch);
    assert_eq!(batch.failures(), 0);
    assert_eq!(
        world.did,
        vec![
            Did::Fetch(5),
            Did::Upload("hash5.jpg".to_string()),
            Did::Publish,
            Did::Send,
            Did::Pause,
            Did::Fetch(6),
            Did::Upload("hash6.jpg".to_string()),
            Did::Publish,
            Did::Send,
            Did::Pause,
        ]
    );
    assert_eq!(uploader.store().message(5).unwrap().id, 900);
    assert_eq!(uploader.store().telegraph(5).unwrap(), "https://telegra.ph/new");
    assert!(uploader.store().has_gallery(6));
}

#[test]
fn a_gallery_that_fails_does_not_stop_the_batch() {
    let mut uploader = engine_over(Store::new());
    let mut world = outside();
    world.broken.push(1);
    let batch = uploader.batch_reupload(vec![item(1), item(2)]);
    let batch = run_through(&mut uploader, &mut world, batch);
    assert_eq!(batch.failures(), 1);
    assert!(!uploader.store().has_gallery(1));
    assert!(uploader.store().has_gallery(2));
    assert_eq!(world.did[0..3], [Did::Fetch(1), Did::Pause, Did::Fetch(2)]);
}

#[test]
fn a_recheck_batch_publishes_again_what_has_gone() {
    let mut store = Store::new();
    announce(&mut store, 5, "https://telegra.ph/five");
    announce(&mut store, 6, "https://telegra.ph/six");
    let mut uploader = engine_over(store);
    let mut world = outside();
    world.gone.push("https://telegra.ph/six".to_string());
    // Gallery 7 was never announced: there is nothing to ask after.
    let batch = uploader.batch_recheck(vec![item(5), item(7), item(6)]);
    let batch = run_through(&mut uploader, &mut world, batch);
    assert_eq!(batch.failures(), 0);
    assert_eq!(
        world.did,
        vec![
            Did::Check("https://telegra.ph/five".to_string()),
            Did::Pause,
            Did::Pause,
            Did::Check("https://telegra.ph/six".to_string()),
            Did::Publish,
            Did::Edit(106),
            Did::Pause,
        ]
    );
    assert_eq!(uploader.store().telegraph(5).unwrap(), "https://telegra.ph/five");
    assert_eq!(uploader.store().telegraph(6).unwrap(), "https://telegra.ph/new");
    assert!(!uploader.store().has_gallery(7));
}

#[test]
fn an_outcome_that_the_batch_did_not_wait_for_changes_nothing() {
    let mut uploader = engine_over(Store::new());
    let mut batch = uploader.batch_reupload(vec![item(1)]);
    batch = uploader.proceed(batch, ScanReply::Paused);
    batch = uploader.proceed(batch, ScanReply::SearchFailed);
    assert!(!batch.finished());
    assert!(matches!(batch.poll(), Some(ScanRequest::Work(Request::Fetch(_)))));
    batch = uploader.proceed(batch, ScanReply::Work(Reply::Failed));
    assert_eq!(batch.failures(), 1);
    batch = uploader.proceed(batch, ScanReply::Work(Reply::Edited));
    assert!(matches!(batch.poll(), Some(ScanRequest::Pause { seconds: 1 })));
    batch = uploader.proceed(batch, ScanReply::Paused);
    assert!(batch.finished());
    let batch = uploader.proceed(batch, ScanReply::Paused);
    assert!(batch.finished());
    assert_eq!(batch.failures(), 1);
}

use gallery_sync::gallery::{EhGallery, EhGalleryUrl, EhPageUrl, GalleryEntity};
use gallery_sync::schedule::Date;
use gallery_sync::store::{ImageEntity, MessageEntity, Store};
use gallery_sync::trans::EhTagTransDB;
use gallery_sync::gallery::gallery_url;
use gallery_sync::uploader::{Config, ErrorKind, ExloliUploader, Reply, Request, Task, TaskStatus};
use indexmap::IndexMap;
use std::collections::HashMap;

/// The outside world of these tests: a catalog, an image host, an article
/// host and a message channel that remember what they were asked.
struct World {
    catalog: HashMap<i32, EhGallery>,
    today: Date,
    fetched: Vec<i32>,
    resolved: Vec<String>,
    uploaded: Vec<String>,
    published: Vec<(String, String)>,
    sent: Vec<(String, Option<i32>)>,
    edited: Vec<(i32, String)>,
    fail_upload_of: Option<String>,
    fail_publish: bool,
    fail_send: bool,
    fail_fetch: bool,
    fail_edit: bool,
    checked: Vec<String>,
    status: u16,
}

fn world() -> World {
    World {
        catalog: HashMap::new(),
        today: Date::new(2024, 6, 14).unwrap(),
        fetched: Vec::new(),
        resolved: Vec::new(),
        uploaded: Vec::new(),
        published: Vec::new(),
        sent: Vec::new(),
        edited: Vec::new(),
        fail_upload_of: None,
        fail_publish: false,
        fail_send: false,
        fail_fetch: false,
        fail_edit: false,
        checked: Vec::new(),
        status: 200,
    }
}

fn copy_of(g: &EhGallery) -> EhGallery {
    EhGallery {
        url: g.url.duplicate(),
        title: g.title.clone(),
        title_jp: g.title_jp.clone(),
        parent: g.parent.as_ref().map(|p| p.duplicate()),
        tags: g.tags.clone(),
        favorite: g.favorite,
        pages: g.pages.iter().map(|p| p.duplicate()).collect(),
        posted: g.posted,
        cover: g.cover,
    }
}

fn perform(world: &mut World, request: Request) -> Reply {
    match request {
        Request::Fetch(url) => {
            world.fetched.push(url.id);
            if world.fail_fetch {
                return Reply::Failed;
            }
            match world.catalog.get(&url.id) {
                Some(g) => Reply::Gallery(copy_of(g)),
                None => Reply::Failed,
            }
        }
        Request::Resolve(page) => {
            world.resolved.push(page.hash.clone());
            Reply::Resolved {
                fileindex: 1000 + page.page as u32,
                url: format!("https://cdn/{}/{}.jpg", page.gallery_id, page.page),
            }
        }
        Request::Upload(job) => {
            if world.fail_upload_of.as_deref() == Some(job.page.hash.as_str()) {
                return Reply::Failed;
            }
            world.uploaded.push(job.filename.clone());
            Reply::Uploaded { index: job.index, url: format!("https://files/{}", job.filename) }
        }
        Request::Publish { title, html } => {
            if world.fail_publish {
                return Reply::Failed;
            }
            world.published.push((title, html));
            Reply::Published { url: format!("https://telegra.ph/{}", world.published.len()) }
        }
        Request::Send { text, reply_to } => {
            if world.fail_send {
                return Reply::Failed;
            }
            world.sent.push((text, reply_to));
            Reply::Sent { message_id: 9000 + world.sent.len() as i32, date: world.today }
        }
        Request::Edit { message_id, text } => {
            if world.fail_edit {
                return Reply::Failed;
            }
            world.edited.push((message_id, text));
            Reply::Edited
        }
        Request::Check { url } => {
            world.checked.push(url);
            if world.status == 0 {
                Reply::Failed
            } else {
                Reply::Status { code: world.status }
            }
        }
    }
}

/// Drives a task to its end: starts what it asks for and hands back what
/// the world answers.
fn drive(uploader: &mut ExloliUploader, world: &mut World, mut task: Task) -> TaskStatus {
    loop {
        let mut replies = Vec::new();
        while let Some(request) = task.poll() {
            replies.push(perform(world, request));
        }
        if task.status() != TaskStatus::Running {
            return task.status();
        }
        assert!(!replies.is_empty(), "the task runs but asks for nothing");
        for reply in replies {
            task = uploader.handle(task, reply);
        }
    }
}

fn tags(entries: &[(&str, &[&str])]) -> IndexMap<String, Vec<String>> {
    let mut tags = IndexMap::new();
    for (namespace, names) in entries {
        tags.insert(namespace.to_string(), names.iter().map(|n| n.to_string()).collect());
    }
    tags
}

fn gallery(id: i32, hashes: &[&str], parent: Option<i32>) -> EhGallery {
    EhGallery {
        url: EhGalleryUrl::new(id, format!("t{}", id), 0),
        title: format!("Gallery {}", id),
        title_jp: None,
        parent: parent.map(|p| EhGalleryUrl::new(p, format!("t{}", p), 0)),
        tags: tags(&[("artist", &["some one"]), ("female", &["big-breasts"])]),
        favorite: 3,
        pages: hashes
            .iter()
            .enumerate()
            .map(|(i, h)| EhPageUrl::new(h.to_string(), id, i as i32 + 1))
            .collect(),
        posted: 1_700_000_000,
        cover: 0,
    }
}

fn config() -> Config {
    Config { threads_num: 2, search_count: 3, skip_animated: false }
}

fn engine(store: Store) -> ExloliUploader {
    ExloliUploader::new(config(), store, EhTagTransDB::new(), "author".to_string(), "hash").unwrap()
}

fn address(id: i32) -> EhGalleryUrl {
    EhGalleryUrl::new(id, format!("t{}", id), 0)
}

#[test]
fn the_engine_wants_a_worker() {
    let none = Config { threads_num: 0, search_count: 3, skip_animated: false };
    assert!(ExloliUploader::new(none, Store::new(), EhTagTransDB::new(), "author".to_string(), "hash").is_none());
    let too_many = Config { threads_num: usize::MAX, search_count: 3, skip_animated: false };
    assert!(ExloliUploader::new(too_many, Store::new(), EhTagTransDB::new(), "author".to_string(), "hash").is_none());
    let one = Config { threads_num: 1, search_count: 0, skip_animated: true };
    let uploader = ExloliUploader::new(one, Store::new(), EhTagTransDB::new(), "author".to_string(), "hash").unwrap();
    assert_eq!(uploader.config().threads_num, 1);
    assert!(uploader.config().skip_animated);
}

#[test]
fn a_new_gallery_with_two_known_pages_uploads_the_third() {
    let mut store = Store::new();
    store.add_image("h1".to_string(), ImageEntity { fileindex: 1, url: "https://files/old1".to_string() });
    store.add_image("h2".to_string(), ImageEntity { fileindex: 2, url: "https://files/old2".to_string() });
    let mut uploader = engine(store);
    let mut world = world();
    world.catalog.insert(555, gallery(555, &["h1", "h2", "h3"], None));

    let task = uploader.try_upload(&address(555), true);
    assert_eq!(drive(&mut uploader, &mut world, task), TaskStatus::Done);

    // One image was fetched and re-hosted, the one that was not held.
    assert_eq!(world.resolved, vec!["h3"]);
    assert_eq!(world.uploaded, vec!["h3.jpg"]);
    let store = uploader.store();
    assert_eq!(store.image_count(), 3);
    let new = store.image(&"h3".to_string()).unwrap();
    assert_eq!(new.fileindex, 1003);
    assert_eq!(new.url, "https://files/h3.jpg");
    // Three pages, at positions 1 to 3.
    assert_eq!(store.page_count(), 3);
    assert_eq!(store.page(555, 1).unwrap(), "h1");
    assert_eq!(store.page(555, 2).unwrap(), "h2");
    assert_eq!(store.page(555, 3).unwrap(), "h3");
    // One article, made of the three images in order.
    assert_eq!(world.published.len(), 1);
    assert_eq!(world.published[0].0, "Gallery 555");
    assert_eq!(
        world.published[0].1,
        "<img src=\"https://files/old1\"><img src=\"https://files/old2\"><img src=\"https://files/h3.jpg\">"
    );
    assert_eq!(store.telegraph(555).unwrap(), "https://telegra.ph/1");
    // One message, not a reply.
    assert_eq!(world.sent.len(), 1);
    assert_eq!(world.sent[0].1, None);
    assert_eq!(
        world.sent[0].0,
        "<code>artist</code>: #some_one\n\
         <code>female</code>: #big_breasts\n\
         <b>Preview:</b> <a href=\"https://telegra.ph/1\">Gallery 555</a>\n\
         <b>Source:</b> <a href=\"https://exhentai.org/g/555/t555\">https://exhentai.org/g/555/t555</a>"
    );
    let message = store.message(555).unwrap();
    assert_eq!(message.id, 9001);
    assert_eq!(message.publish_date.day(), 14);
    // The snapshot holds the tags that the catalog gave.
    let snapshot = store.gallery(555).unwrap();
    assert_eq!(snapshot.tags, gallery(555, &[], None).tags);
    assert_eq!(snapshot.title, "Gallery 555");
    assert_eq!(snapshot.pages, 3);
    assert_eq!(snapshot.parent, None);
}

#[test]
fn a_gated_upload_of_an_announced_gallery_does_nothing() {
    let mut uploader = engine(Store::new());
    let mut world = world();
    world.catalog.insert(7, gallery(7, &["a", "b"], None));

    let task = uploader.try_upload(&address(7), true);
    assert_eq!(drive(&mut uploader, &mut world, task), TaskStatus::Done);
    assert_eq!(world.sent.len(), 1);
    assert_eq!(world.published.len(), 1);

    let mut second = uploader.try_upload(&address(7), true);
    assert_eq!(second.status(), TaskStatus::Done);
    assert!(second.poll().is_none());
    assert_eq!(drive(&mut uploader, &mut world, second), TaskStatus::Done);
    // No second message, no second article, nothing fetched again.
    assert_eq!(world.sent.len(), 1);
    assert_eq!(world.published.len(), 1);
    assert_eq!(world.fetched, vec![7]);
    assert_eq!(world.uploaded.len(), 2);
    assert_eq!(uploader.store().message(7).unwrap().id, 9001);
    assert_eq!(uploader.store().telegraph(7).unwrap(), "https://telegra.ph/1");
    assert_eq!(uploader.store().image_count(), 2);
    assert_eq!(uploader.store().page_count(), 2);
}

#[test]
fn an_upload_that_is_not_gated_runs_again_without_fetching_images_again() {
    let mut uploader = engine(Store::new());
    let mut world = world();
    world.catalog.insert(7, gallery(7, &["a", "b"], None));
    let task = uploader.try_upload(&address(7), true);
    drive(&mut uploader, &mut world, task);

    let task = uploader.try_upload(&address(7), false);
    assert_eq!(task.status(), TaskStatus::Running);
    assert_eq!(drive(&mut uploader, &mut world, task), TaskStatus::Done);
    assert_eq!(world.fetched, vec![7, 7]);
    assert_eq!(world.uploaded.len(), 2);
    assert_eq!(world.sent.len(), 2);
    // The later message and article are the ones on record.
    assert_eq!(uploader.store().message(7).unwrap().id, 9002);
    assert_eq!(uploader.store().telegraph(7).unwrap(), "https://telegra.ph/2");
    assert_eq!(uploader.store().image_count(), 2);
}

#[test]
fn a_gallery_with_a_snapshot_but_no_message_is_uploaded() {
    let mut store = Store::new();
    store.put_gallery(GalleryEntity::of(&gallery(7, &["a"], None)));
    let mut uploader = engine(store);
    let mut world = world();
    world.catalog.insert(7, gallery(7, &["a"], None));
    let task = uploader.try_upload(&address(7), true);
    assert_eq!(task.status(), TaskStatus::Running);
    assert_eq!(drive(&mut uploader, &mut world, task), TaskStatus::Done);
    assert_eq!(world.sent.len(), 1);
}

#[test]
fn the_message_of_a_child_replies_to_the_message_of_its_parent() {
    let mut uploader = engine(Store::new());
    let mut world = world();
    world.catalog.insert(10, gallery(10, &["x1"], None));
    world.catalog.insert(11, gallery(11, &["x1", "y2"], Some(10)));

    let task = uploader.try_upload(&address(10), true);
    assert_eq!(drive(&mut uploader, &mut world, task), TaskStatus::Done);
    let parent_message = uploader.store().message(10).unwrap().id;

    let task = uploader.try_upload(&address(11), true);
    assert_eq!(drive(&mut uploader, &mut world, task), TaskStatus::Done);
    assert_eq!(world.sent.len(), 2);
    assert_eq!(world.sent[0].1, None);
    assert_eq!(world.sent[1].1, Some(parent_message));
    assert_eq!(uploader.store().gallery(11).unwrap().parent, Some(10));
    // The page that the child shares with its parent was not fetched again.
    assert_eq!(world.uploaded, vec!["x1.jpg", "y2.jpg"]);
}

#[test]
fn the_message_of_a_child_whose_parent_was_not_announced_is_no_reply() {
    let mut uploader = engine(Store::new());
    let mut world = world();
    world.catalog.insert(11, gallery(11, &["y"], Some(10)));
    let task = uploader.try_upload(&address(11), true);
    assert_eq!(drive(&mut uploader, &mut world, task), TaskStatus::Done);
    assert_eq!(world.sent[0].1, None);
}

#[test]
fn a_failed_upload_of_an_image_fails_the_task_and_keeps_the_images_recorded() {
    let mut uploader = engine(Store::new());
    let mut world = world();
    world.catalog.insert(7, gallery(7, &["a", "b", "c"], None));
    world.fail_upload_of = Some("c".to_string());

    let task = uploader.try_upload(&address(7), true);
    assert_eq!(drive(&mut uploader, &mut world, task), TaskStatus::Failed(ErrorKind::Asset));
    assert!(world.published.is_empty());
    assert!(world.sent.is_empty());
    assert!(uploader.store().message(7).is_none());
    assert!(!uploader.store().has_gallery(7));
    let held = uploader.store().image_count();
    assert!(held <= 2);
    assert_eq!(uploader.store().page_count(), held);

    // The next attempt fetches only what is missing, and goes through.
    world.fail_upload_of = None;
    let before = world.uploaded.len();
    let task = uploader.try_upload(&address(7), true);
    assert_eq!(drive(&mut uploader, &mut world, task), TaskStatus::Done);
    assert_eq!(world.uploaded.len() - before, 3 - held);
    assert_eq!(uploader.store().image_count(), 3);
    assert_eq!(uploader.store().page_count(), 3);
    assert_eq!(world.sent.len(), 1);
}

#[test]
fn failures_are_named_after_what_failed() {
    let mut world = world();
    world.catalog.insert(7, gallery(7, &["a"], None));

    let mut uploader = engine(Store::new());
    world.fail_fetch = true;
    let task = uploader.try_upload(&address(7), true);
    assert_eq!(drive(&mut uploader, &mut world, task), TaskStatus::Failed(ErrorKind::Source));
    world.fail_fetch = false;

    world.fail_publish = true;
    let task = uploader.try_upload(&address(7), true);
    assert_eq!(drive(&mut uploader, &mut world, task), TaskStatus::Failed(ErrorKind::Publish));
    world.fail_publish = false;
    // The image stays although the article failed.
    assert_eq!(uploader.store().image_count(), 1);

    world.fail_send = true;
    let task = uploader.try_upload(&address(7), true);
    assert_eq!(drive(&mut uploader, &mut world, task), TaskStatus::Failed(ErrorKind::Notification));
    world.fail_send = false;
    // Nothing is recorded before the message is out, so the next attempt is a full one.
    assert!(uploader.store().message(7).is_none());
    assert!(uploader.store().telegraph(7).is_none());
    assert!(!uploader.store().has_gallery(7));

    let task = uploader.try_upload(&address(7), true);
    assert_eq!(drive(&mut uploader, &mut world, task), TaskStatus::Done);
    assert_eq!(world.uploaded.len(), 1);
}

#[test]
fn an_outcome_that_was_not_asked_for_fails_the_task() {
    let mut uploader = engine(Store::new());
    let mut task = uploader.try_upload(&address(7), true);
    assert!(matches!(task.poll(), Some(Request::Fetch(_))));
    assert!(task.poll().is_none());
    let task = uploader.handle(task, Reply::Edited);
    assert_eq!(task.status(), TaskStatus::Failed(ErrorKind::Protocol));
    // A task that is over stays as it is.
    let task = uploader.handle(task, Reply::Gallery(gallery(7, &["a"], None)));
    assert_eq!(task.status(), TaskStatus::Failed(ErrorKind::Protocol));
    assert_eq!(uploader.store().page_count(), 0);
}

#[test]
fn animated_images_are_left_out_of_an_upload_where_the_policy_says_so() {
    let config = Config { threads_num: 1, search_count: 1, skip_animated: true };
    let mut uploader = ExloliUploader::new(config, Store::new(), EhTagTransDB::new(), "author".to_string(), "hash").unwrap();
    let mut task = uploader.try_upload(&address(7), true);
    let mut sent = 0;
    let mut uploads = Vec::new();
    loop {
        let mut replies = Vec::new();
        while let Some(request) = task.poll() {
            replies.push(match request {
                Request::Fetch(_) => Reply::Gallery(gallery(7, &["a", "b"], None)),
                Request::Resolve(page) => Reply::Resolved {
                    fileindex: 1,
                    url: if page.page == 1 { "u/1.gif".to_string() } else { "u/2.jpg".to_string() },
                },
                Request::Upload(job) => {
                    uploads.push(job.filename.clone());
                    Reply::Uploaded { index: job.index, url: "files/b".to_string() }
                }
                Request::Publish { html, .. } => {
                    assert_eq!(html, "<img src=\"files/b\">");
                    Reply::Published { url: "article".to_string() }
                }
                Request::Send { .. } => {
                    sent += 1;
                    Reply::Sent { message_id: 1, date: Date::new(2024, 1, 1).unwrap() }
                }
                Request::Edit { .. } => Reply::Edited,
                Request::Check { .. } => Reply::Status { code: 200 },
            });
        }
        if task.status() != TaskStatus::Running {
            break;
        }
        for reply in replies {
            task = uploader.handle(task, reply);
        }
    }
    assert_eq!(task.status(), TaskStatus::Done);
    assert_eq!(uploads, vec!["b.jpg"]);
    assert_eq!(sent, 1);
    assert!(uploader.store().page(7, 1).is_none());
    assert_eq!(uploader.store().page(7, 2).unwrap(), "b");
}

fn announced(id: i32, published: Date, article: &str) -> Store {
    let mut store = Store::new();
    store.put_gallery(GalleryEntity::of(&gallery(id, &["a"], None)));
    store.put_message(id, MessageEntity { id: 100 + id, publish_date: published });
    store.put_telegraph(id, article.to_string());
    store
}

#[test]
fn a_gallery_that_was_not_announced_is_not_updated() {
    let mut uploader = engine(Store::new());
    let mut world = world();
    let today = world.today;
    let task = uploader.try_update(&address(7), false, &today);
    assert_eq!(task.status(), TaskStatus::Done);
    assert_eq!(drive(&mut uploader, &mut world, task), TaskStatus::Done);
    assert!(world.fetched.is_empty());

    // A snapshot without a message is not enough.
    let mut store = Store::new();
    store.put_gallery(GalleryEntity::of(&gallery(7, &["a"], None)));
    let uploader = engine(store);
    assert_eq!(uploader.try_update(&address(7), false, &today).status(), TaskStatus::Done);
}

#[test]
fn a_gated_update_waits_for_its_day() {
    // Published on the 4th; ten days old on the 14th, nine on the 13th: seed 7.
    let published = Date::new(2024, 6, 4).unwrap();
    let uploader = engine(announced(7, published, "https://telegra.ph/x"));
    let on_13th = Date::new(2024, 6, 13).unwrap();
    let on_14th = Date::new(2024, 6, 14).unwrap();
    assert_eq!(uploader.try_update(&address(7), true, &on_13th).status(), TaskStatus::Done);
    assert_eq!(uploader.try_update(&address(7), true, &on_14th).status(), TaskStatus::Running);
    assert_eq!(uploader.try_update(&address(7), false, &on_13th).status(), TaskStatus::Running);
    // A day after publication the gallery is looked at whatever the day.
    let on_5th = Date::new(2024, 6, 5).unwrap();
    assert_eq!(uploader.try_update(&address(7), true, &on_5th).status(), TaskStatus::Running);
    // Three weeks on, the seed is 14: the 25th is not a multiple, the 28th is.
    let on_25th = Date::new(2024, 6, 25).unwrap();
    let on_28th = Date::new(2024, 6, 28).unwrap();
    assert_eq!(uploader.try_update(&address(7), true, &on_25th).status(), TaskStatus::Done);
    assert_eq!(uploader.try_update(&address(7), true, &on_28th).status(), TaskStatus::Running);
}

#[test]
fn an_update_edits_the_message_when_the_tags_have_changed() {
    let published = Date::new(2024, 6, 13).unwrap();
    let mut uploader = engine(announced(7, published, "https://telegra.ph/x"));
    let mut world = world();
    let mut changed = gallery(7, &["a"], None);
    changed.tags = tags(&[("artist", &["some one"]), ("female", &["big-breasts", "new tag"])]);
    world.catalog.insert(7, changed);
    let today = world.today;

    let task = uploader.try_update(&address(7), true, &today);
    assert_eq!(drive(&mut uploader, &mut world, task), TaskStatus::Done);
    assert_eq!(world.edited.len(), 1);
    assert_eq!(world.edited[0].0, 107);
    assert_eq!(
        world.edited[0].1,
        "<code>artist</code>: #some_one\n\
         <code>female</code>: #big_breasts #new_tag\n\
         <b>Preview:</b> <a href=\"https://telegra.ph/x\">Gallery 7</a>\n\
         <b>Source:</b> <a href=\"https://exhentai.org/g/7/t7\">https://exhentai.org/g/7/t7</a>"
    );
    // No new message, no new article; the snapshot is up to date.
    assert!(world.sent.is_empty());
    assert!(world.published.is_empty());
    assert_eq!(uploader.store().telegraph(7).unwrap(), "https://telegra.ph/x");
    assert_eq!(uploader.store().message(7).unwrap().id, 107);
    assert_eq!(
        uploader.store().gallery(7).unwrap().tags.get("female").unwrap(),
        &vec!["big-breasts".to_string(), "new tag".to_string()]
    );

    // The next update finds nothing to edit.
    let task = uploader.try_update(&address(7), true, &today);
    assert_eq!(drive(&mut uploader, &mut world, task), TaskStatus::Done);
    assert_eq!(world.edited.len(), 1);
    assert_eq!(world.fetched, vec![7, 7]);
}

#[test]
fn an_update_edits_the_message_when_the_title_has_changed() {
    let published = Date::new(2024, 6, 13).unwrap();
    let mut uploader = engine(announced(7, published, "https://telegra.ph/x"));
    let mut world = world();
    let mut changed = gallery(7, &["a"], None);
    changed.title = "Another title".to_string();
    world.catalog.insert(7, changed);
    let today = world.today;
    let task = uploader.try_update(&address(7), false, &today);
    assert_eq!(drive(&mut uploader, &mut world, task), TaskStatus::Done);
    assert_eq!(world.edited.len(), 1);
    assert!(world.edited[0].1.contains(">Another title</a>"));
    assert_eq!(uploader.store().gallery(7).unwrap().title, "Another title");
}

#[test]
fn an_update_without_changes_refreshes_the_snapshot_only() {
    let published = Date::new(2024, 6, 13).unwrap();
    let mut uploader = engine(announced(7, published, "https://telegra.ph/x"));
    let mut world = world();
    let mut same = gallery(7, &["a", "b", "c"], None);
    same.favorite = 99;
    // The same groups in another order are the same tags.
    same.tags = tags(&[("female", &["big-breasts"]), ("artist", &["some one"])]);
    world.catalog.insert(7, same);
    let today = world.today;
    let task = uploader.try_update(&address(7), true, &today);
    assert_eq!(drive(&mut uploader, &mut world, task), TaskStatus::Done);
    assert!(world.edited.is_empty());
    let snapshot = uploader.store().gallery(7).unwrap();
    assert_eq!(snapshot.favorite, 99);
    assert_eq!(snapshot.pages, 3);
}

#[test]
fn the_order_of_the_tags_within_a_group_counts() {
    let published = Date::new(2024, 6, 13).unwrap();
    let mut store = announced(7, published, "https://telegra.ph/x");
    let mut before = gallery(7, &["a"], None);
    before.tags = tags(&[("female", &["x", "y"])]);
    store.put_gallery(GalleryEntity::of(&before));
    let mut uploader = engine(store);
    let mut world = world();
    let mut now = gallery(7, &["a"], None);
    now.tags = tags(&[("female", &["y", "x"])]);
    world.catalog.insert(7, now);
    let today = world.today;
    let task = uploader.try_update(&address(7), true, &today);
    assert_eq!(drive(&mut uploader, &mut world, task), TaskStatus::Done);
    assert_eq!(world.edited.len(), 1);
}

#[test]
fn a_failed_edit_leaves_the_snapshot_as_it_was() {
    let published = Date::new(2024, 6, 13).unwrap();
    let mut uploader = engine(announced(7, published, "https://telegra.ph/x"));
    let mut world = world();
    let mut changed = gallery(7, &["a"], None);
    changed.title = "Another title".to_string();
    world.catalog.insert(7, changed);
    world.fail_edit = true;
    let today = world.today;
    let task = uploader.try_update(&address(7), true, &today);
    assert_eq!(drive(&mut uploader, &mut world, task), TaskStatus::Failed(ErrorKind::Notification));
    assert_eq!(uploader.store().gallery(7).unwrap().title, "Gallery 7");
    // So the next update tries the edit again.
    world.fail_edit = false;
    let task = uploader.try_update(&address(7), true, &today);
    assert_eq!(drive(&mut uploader, &mut world, task), TaskStatus::Done);
    assert_eq!(world.edited.len(), 1);
}

#[test]
fn an_update_of_a_gallery_without_an_article_fails() {
    let published = Date::new(2024, 6, 13).unwrap();
    let mut store = Store::new();
    store.put_gallery(GalleryEntity::of(&gallery(7, &["a"], None)));
    store.put_message(7, MessageEntity { id: 107, publish_date: published });
    let mut uploader = engine(store);
    let mut world = world();
    let mut changed = gallery(7, &["a"], None);
    changed.title = "Another title".to_string();
    world.catalog.insert(7, changed);
    let today = world.today;
    let task = uploader.try_update(&address(7), true, &today);
    assert_eq!(drive(&mut uploader, &mut world, task), TaskStatus::Failed(ErrorKind::Storage));
    assert!(world.edited.is_empty());
}

#[test]
fn an_update_that_is_answered_with_another_gallery_fails() {
    let published = Date::new(2024, 6, 13).unwrap();
    let mut uploader = engine(announced(7, published, "https://telegra.ph/x"));
    let today = Date::new(2024, 6, 14).unwrap();
    let mut task = uploader.try_update(&address(7), true, &today);
    assert!(matches!(task.poll(), Some(Request::Fetch(_))));
    let task = uploader.handle(task, Reply::Gallery(gallery(8, &["a"], None)));
    assert_eq!(task.status(), TaskStatus::Failed(ErrorKind::Protocol));
    assert!(!uploader.store().has_gallery(8));
}

#[test]
fn a_lost_update_source_fails_the_update() {
    let published = Date::new(2024, 6, 13).unwrap();
    let mut uploader = engine(announced(7, published, "https://telegra.ph/x"));
    let mut world = world();
    world.fail_fetch = true;
    let today = world.today;
    let task = uploader.try_update(&address(7), true, &today);
    assert_eq!(drive(&mut uploader, &mut world, task), TaskStatus::Failed(ErrorKind::Source));
}

#[test]
fn republishing_makes_the_article_again_from_the_images_held() {
    let published = Date::new(2024, 6, 1).unwrap();
    let mut store = announced(7, published, "https://telegra.ph/gone");
    store.add_image("a".to_string(), ImageEntity { fileindex: 1, url: "https://files/a".to_string() });
    store.add_image("b".to_string(), ImageEntity { fileindex: 2, url: "https://files/b".to_string() });
    store.bind_page(7, 2, &"b".to_string());
    store.bind_page(7, 1, &"a".to_string());
    store.put_gallery(GalleryEntity::of(&gallery(7, &["a", "b"], None)));
    let mut uploader = engine(store);
    let mut world = world();

    let snapshot = uploader.store().gallery(7).unwrap().duplicate();
    let message = uploader.store().message(7).unwrap();
    let task = uploader.republish(&snapshot, &message);
    assert_eq!(drive(&mut uploader, &mut world, task), TaskStatus::Done);

    assert!(world.fetched.is_empty());
    assert!(world.uploaded.is_empty());
    assert!(world.sent.is_empty());
    assert_eq!(world.published.len(), 1);
    assert_eq!(world.published[0].0, "Gallery 7");
    assert_eq!(world.published[0].1, "<img src=\"https://files/a\"><img src=\"https://files/b\">");
    assert_eq!(world.edited.len(), 1);
    assert_eq!(world.edited[0].0, 107);
    assert!(world.edited[0].1.contains("<a href=\"https://telegra.ph/1\">Gallery 7</a>"));
    assert_eq!(uploader.store().telegraph(7).unwrap(), "https://telegra.ph/1");
    assert_eq!(uploader.store().message(7).unwrap().id, 107);
}

#[test]
fn a_republication_that_fails_keeps_the_old_article_on_record() {
    let published = Date::new(2024, 6, 1).unwrap();
    let mut uploader = engine(announced(7, published, "https://telegra.ph/gone"));
    let mut world = world();
    let snapshot = uploader.store().gallery(7).unwrap().duplicate();
    let message = uploader.store().message(7).unwrap();

    world.fail_publish = true;
    let task = uploader.republish(&snapshot, &message);
    assert_eq!(drive(&mut uploader, &mut world, task), TaskStatus::Failed(ErrorKind::Publish));
    world.fail_publish = false;
    world.fail_edit = true;
    let task = uploader.republish(&snapshot, &message);
    assert_eq!(drive(&mut uploader, &mut world, task), TaskStatus::Failed(ErrorKind::Notification));
    assert_eq!(uploader.store().telegraph(7).unwrap(), "https://telegra.ph/gone");
}

#[test]
fn the_cover_of_a_gallery_leads_its_article() {
    let mut uploader = engine(Store::new());
    let mut world = world();
    let mut with_cover = gallery(7, &["a", "b", "c"], None);
    with_cover.cover = 1;
    world.catalog.insert(7, with_cover);
    let task = uploader.try_upload(&address(7), true);
    assert_eq!(drive(&mut uploader, &mut world, task), TaskStatus::Done);
    assert_eq!(
        world.published[0].1,
        "<img src=\"https://files/b.jpg\"><img src=\"https://files/a.jpg\">\
         <img src=\"https://files/b.jpg\"><img src=\"https://files/c.jpg\">"
    );
}

#[test]
fn the_address_of_a_gallery_is_made_of_its_id_and_token() {
    assert_eq!(gallery_url(555, &"abcdef".to_string()), "https://exhentai.org/g/555/abcdef");
    assert_eq!(gallery_url(0, &"".to_string()), "https://exhentai.org/g/0/");
    assert_eq!(gallery_url(-12, &"x".to_string()), "https://exhentai.org/g/-12/x");
    assert_eq!(
        gallery_url(i32::MAX, &"x".to_string()),
        "https://exhentai.org/g/2147483647/x"
    );
    assert_eq!(
        gallery_url(i32::MIN, &"x".to_string()),
        "https://exhentai.org/g/-2147483648/x"
    );
}

#[test]
fn an_article_is_there_unless_the_host_says_it_is_not() {
    assert!(ExloliUploader::check_telegraph(200));
    assert!(ExloliUploader::check_telegraph(301));
    assert!(ExloliUploader::check_telegraph(403));
    assert!(ExloliUploader::check_telegraph(500));
    assert!(ExloliUploader::check_telegraph(0));
    assert!(!ExloliUploader::check_telegraph(404));
}

#[test]
fn a_recheck_leaves_an_article_that_is_there_alone() {
    let published = Date::new(2024, 6, 1).unwrap();
    let mut uploader = engine(announced(7, published, "https://telegra.ph/there"));
    let mut world = world();
    let snapshot = uploader.store().gallery(7).unwrap().duplicate();
    let message = uploader.store().message(7).unwrap();
    let task = uploader.recheck(&snapshot, &message);
    assert_eq!(drive(&mut uploader, &mut world, task), TaskStatus::Done);
    assert_eq!(world.checked, vec!["https://telegra.ph/there"]);
    assert!(world.published.is_empty());
    assert!(world.edited.is_empty());
    assert_eq!(uploader.store().telegraph(7).unwrap(), "https://telegra.ph/there");
}

#[test]
fn a_recheck_publishes_an_article_again_that_has_gone() {
    let published = Date::new(2024, 6, 1).unwrap();
    let mut uploader = engine(announced(7, published, "https://telegra.ph/gone"));
    let mut world = world();
    world.status = 404;
    let snapshot = uploader.store().gallery(7).unwrap().duplicate();
    let message = uploader.store().message(7).unwrap();
    let task = uploader.recheck(&snapshot, &message);
    assert_eq!(drive(&mut uploader, &mut world, task), TaskStatus::Done);
    assert_eq!(world.checked, vec!["https://telegra.ph/gone"]);
    assert_eq!(world.published.len(), 1);
    assert_eq!(world.edited.len(), 1);
    assert_eq!(world.edited[0].0, 107);
    assert_eq!(uploader.store().telegraph(7).unwrap(), "https://telegra.ph/1");
}

#[test]
fn a_recheck_without_an_article_on_record_publishes_one() {
    let published = Date::new(2024, 6, 1).unwrap();
    let mut store = Store::new();
    store.put_gallery(GalleryEntity::of(&gallery(7, &["a"], None)));
    store.put_message(7, MessageEntity { id: 107, publish_date: published });
    let mut uploader = engine(store);
    let mut world = world();
    let snapshot = uploader.store().gallery(7).unwrap().duplicate();
    let message = uploader.store().message(7).unwrap();
    let task = uploader.recheck(&snapshot, &message);
    assert_eq!(drive(&mut uploader, &mut world, task), TaskStatus::Done);
    assert!(world.checked.is_empty());
    assert_eq!(world.published.len(), 1);
    assert_eq!(uploader.store().telegraph(7).unwrap(), "https://telegra.ph/1");
}

#[test]
fn a_recheck_that_gets_no_answer_fails() {
    let published = Date::new(2024, 6, 1).unwrap();
    let mut uploader = engine(announced(7, published, "https://telegra.ph/x"));
    let mut world = world();
    world.status = 0;
    let snapshot = uploader.store().gallery(7).unwrap().duplicate();
    let message = uploader.store().message(7).unwrap();
    let task = uploader.recheck(&snapshot, &message);
    assert_eq!(drive(&mut uploader, &mut world, task), TaskStatus::Failed(ErrorKind::Publish));
    assert_eq!(uploader.store().telegraph(7).unwrap(), "https://telegra.ph/x");
}

#[test]
fn a_task_names_its_gallery() {
    let mut uploader = engine(Store::new());
    let task = uploader.try_upload(&address(42), true);
    assert_eq!(task.gallery_id(), 42);
    let task = uploader.handle(task, Reply::Failed);
    assert_eq!(task.status(), TaskStatus::Failed(ErrorKind::Source));
    assert_eq!(task.gallery_id(), 42);
    let today = Date::new(2024, 6, 14).unwrap();
    assert_eq!(uploader.try_update(&address(43), true, &today).gallery_id(), 43);
    let snapshot = GalleryEntity::of(&gallery(44, &["a"], None));
    let message = MessageEntity { id: 1, publish_date: today };
    assert_eq!(uploader.republish(&snapshot, &message).gallery_id(), 44);
    assert_eq!(uploader.recheck(&snapshot, &message).gallery_id(), 44);
}

#[test]
fn an_upload_that_is_answered_with_another_gallery_fails() {
    let mut uploader = engine(Store::new());
    let mut task = uploader.try_upload(&address(7), true);
    assert!(matches!(task.poll(), Some(Request::Fetch(_))));
    let task = uploader.handle(task, Reply::Gallery(gallery(8, &["a"], None)));
    assert_eq!(task.status(), TaskStatus::Failed(ErrorKind::Protocol));
    assert_eq!(uploader.store().page_count(), 0);
}

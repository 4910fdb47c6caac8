use gallery_sync::detail::DetailError;
use gallery_sync::gallery::EhGalleryUrl;
use gallery_sync::page::{
    add_page, get_gallery, get_image_url, image_source, listed, raw_gallery, search_skip, take_all,
    take_first,
};

const GALLERY: &str = r##"<!DOCTYPE html>
<html><head><title>x</title></head><body>
<h1 id="gn">English <i>Title</i></h1>
<h1 id="gj">&#38988;&#21517;</h1>
<div id="gdd"><table>
<tr><td class="gdt1">Posted:</td><td class="gdt2">2023-04-05 06:07</td></tr>
<tr><td class="gdt1">Parent:</td><td class="gdt2"><a href="https://exhentai.org/g/100/aaaaaaaaaa/">100</a></td></tr>
<tr><td class="gdt1">Favorited:</td><td class="gdt2" id="favcount">1234 times</td></tr>
</table></div>
<div id="taglist"><table>
<tr><td class="tc">language:</td><td><div><a href="#">chinese</a></div><div><a href="#">translated</a></div></td></tr>
<tr><td class="tc">female:</td><td><div><a href="#">sole female</a></div><div><a href="#"></a></div></td></tr>
<tr><td>no namespace</td><td><div><a href="#">stray</a></div></td></tr>
</table></div>
<table class="ptt"><tr><td>1</td><td><a href="https://exhentai.org/g/555/bbbbbbbbbb/?p=1">&gt;</a></td></tr></table>
<div class="gdtl"><a href="https://exhentai.org/s/abcdef0123/555-1"><img src="t1.jpg"></a></div>
<div class="gdtl"><a href="https://exhentai.org/s/0123456789/555-2"><img src="t2.jpg"></a></div>
<div class="gdtl"><a name="nowhere">x</a></div>
</body></html>"##;

#[test]
fn what_a_gallery_page_shows_is_picked_out() {
    let raw = raw_gallery(GALLERY);
    // The first piece of text of the title, up to the first element in it.
    assert_eq!(raw.title.as_deref(), Some("English "));
    assert_eq!(raw.title_jp.as_deref(), Some("\u{984c}\u{540d}"));
    assert_eq!(raw.parent.as_deref(), Some("https://exhentai.org/g/100/aaaaaaaaaa/"));
    assert_eq!(raw.favorite.as_deref(), Some("1234 times"));
    assert_eq!(raw.posted.as_deref(), Some("2023-04-05 06:07"));
    assert_eq!(
        raw.pages,
        vec!["https://exhentai.org/s/abcdef0123/555-1", "https://exhentai.org/s/0123456789/555-2"]
    );
    assert_eq!(raw.next_page.as_deref(), Some("https://exhentai.org/g/555/bbbbbbbbbb/?p=1"));
    assert_eq!(raw.tags.len(), 3);
    assert_eq!(raw.tags[0].0.as_deref(), Some("language:"));
    assert_eq!(raw.tags[0].1, vec!["chinese", "translated"]);
    assert_eq!(raw.tags[1].0.as_deref(), Some("female:"));
    // A link without a text names no tag.
    assert_eq!(raw.tags[1].1, vec!["sole female"]);
    assert_eq!(raw.tags[2].0, None);
    assert_eq!(raw.tags[2].1, vec!["stray"]);
}

#[test]
fn a_page_that_shows_nothing_gives_nothing() {
    for html in ["", "<html></html>", "plain text", "<h1 id=\"other\">x</h1>"] {
        let raw = raw_gallery(html);
        assert!(raw.title.is_none());
        assert!(raw.title_jp.is_none());
        assert!(raw.parent.is_none());
        assert!(raw.tags.is_empty());
        assert!(raw.favorite.is_none());
        assert!(raw.posted.is_none());
        assert!(raw.pages.is_empty());
        assert!(raw.next_page.is_none());
    }
}

#[test]
fn the_last_page_of_a_gallery_names_no_next_page() {
    let html = r#"<table class="ptt"><tr><td><a href="first">1</a></td><td>&gt;</td></tr></table>"#;
    assert!(raw_gallery(html).next_page.is_none());
    let html = r#"<table class="ptt"><tr><td>1</td><td><a href="next">&gt;</a></td></tr></table>"#;
    assert_eq!(raw_gallery(html).next_page.as_deref(), Some("next"));
}

#[test]
fn an_empty_title_is_no_title() {
    assert!(raw_gallery(r#"<h1 id="gn"></h1>"#).title.is_none());
    assert_eq!(raw_gallery(r#"<h1 id="gn"><b>bold</b> rest</h1>"#).title.as_deref(), Some("bold"));
}

#[test]
fn the_galleries_of_the_list_are_found_by_their_links() {
    let html = r#"<table class="itg gltc">
<tr><th>Type</th><th>Name</th></tr>
<tr><td class="gl1c">x</td><td class="gl3c glname"><a href="https://exhentai.org/g/3/cccccccccc/"><div class="glink">Third</div></a></td></tr>
<tr><td class="gl1c">x</td><td class="gl3c glname"><a href="https://exhentai.org/g/2/bbbbbbbbbb/"><div class="glink">Second</div></a></td></tr>
<tr><td class="gl3c glname"><a name="anchor">no link</a></td></tr>
</table>
<table class="other"><tr><td class="gl3c glname"><a href="elsewhere">x</a></td></tr></table>"#;
    assert_eq!(
        listed(html),
        vec!["https://exhentai.org/g/3/cccccccccc/", "https://exhentai.org/g/2/bbbbbbbbbb/"]
    );
    assert!(listed("<table class=\"itg gltc\"></table>").is_empty());
}

#[test]
fn the_image_of_a_page_is_found_by_its_id() {
    let html = r#"<div><img src="small.jpg"><img id="img" src="https://h/x;fileindex=5;y/a.jpg"></div>"#;
    assert_eq!(image_source(html).as_deref(), Some("https://h/x;fileindex=5;y/a.jpg"));
    assert!(image_source(r#"<img id="img">"#).is_none());
    assert!(image_source(r#"<img src="a.jpg">"#).is_none());
}

#[test]
fn the_first_found_counts_for_a_single_value() {
    let found = Some(vec![None, Some("b".to_string())]);
    assert_eq!(take_first(&found), None);
    let found = Some(vec![Some("a".to_string()), Some("b".to_string())]);
    assert_eq!(take_first(&found).as_deref(), Some("a"));
    assert_eq!(take_first(&Some(Vec::new())), None);
    assert_eq!(take_first(&None), None);
}

#[test]
fn everything_found_counts_for_a_list() {
    let found = Some(vec![None, Some("b".to_string()), None, Some("d".to_string())]);
    assert_eq!(take_all(&found), vec!["b", "d"]);
    assert!(take_all(&Some(Vec::new())).is_empty());
    assert!(take_all(&None).is_empty());
}

fn well_formed() -> String {
    GALLERY.replace("<td>no namespace</td>", "<td class=\"tc\">misc:</td>")
}

#[test]
fn a_gallery_is_read_from_the_pages_that_show_it() {
    let url = EhGalleryUrl::new(555, "bbbbbbbbbb".to_string(), 0);
    let mut draft = get_gallery(&url, &well_formed()).unwrap();
    assert_eq!(draft.page_count(), 2);
    assert_eq!(draft.next_page().as_deref(), Some("https://exhentai.org/g/555/bbbbbbbbbb/?p=1"));
    let second = r#"<table class="ptt"><tr><td><a href="first">1</a></td><td>&gt;</td></tr></table>
<div class="gdtl"><a href="https://exhentai.org/s/aaaaaaaaaa/555-3">x</a></div>"#;
    add_page(&mut draft, second);
    assert_eq!(draft.page_count(), 3);
    assert!(draft.next_page().is_none());
    let gallery = draft.finish().unwrap();
    assert_eq!(gallery.title, "English ");
    assert_eq!(gallery.favorite, 1234);
    assert_eq!(gallery.posted, 1680674820);
    assert_eq!(gallery.tags.len(), 3);
    assert_eq!(gallery.tags.get("misc").unwrap(), &vec!["stray".to_string()]);
    assert_eq!(gallery.pages.iter().map(|p| p.page).collect::<Vec<_>>(), vec![1, 2, 3]);
    assert_eq!(gallery.parent.unwrap().id, 100);
}

#[test]
fn a_gallery_page_with_a_tag_row_without_namespace_is_refused() {
    let url = EhGalleryUrl::new(555, "bbbbbbbbbb".to_string(), 0);
    assert_eq!(get_gallery(&url, GALLERY).err(), Some(DetailError::NoNamespace));
    assert_eq!(get_gallery(&url, "").err(), Some(DetailError::NoTitle));
}

#[test]
fn the_list_is_read_into_galleries() {
    let html = r#"<table class="itg gltc"><tr><th>Name</th></tr>
<tr><td class="gl3c glname"><a href="https://exhentai.org/g/3/cccccccccc/">x</a></td></tr>
<tr><td class="gl3c glname"><a href="https://exhentai.org/g/2/bbbbbbbbbb/">x</a></td></tr></table>"#;
    let galleries = search_skip(html).unwrap();
    assert_eq!(galleries.iter().map(|g| g.id).collect::<Vec<_>>(), vec![3, 2]);
    assert!(search_skip("").unwrap().is_empty());
    let bad = html.replace("/g/2/", "/x/2/");
    assert!(search_skip(&bad).is_none());
}

#[test]
fn the_image_of_a_page_is_resolved_from_the_page() {
    let html = r#"<img id="img" src="https://h/x;fileindex=5;y/a.jpg">"#;
    assert_eq!(get_image_url(html), Some((5, "https://h/x;fileindex=5;y/a.jpg".to_string())));
    assert_eq!(get_image_url(r#"<img id="img" src="https://h/a.jpg">"#), None);
    assert_eq!(get_image_url(""), None);
}

use manga_extensions::error::{Cause, SourceError};
use manga_extensions::input::{Input, InputType};
use manga_extensions::nhentai::NHentai;
use manga_extensions::request::Method;

fn texts(names: &[&str]) -> Vec<InputType> {
    names.iter().map(|n| InputType::Text(n.to_string())).collect()
}

fn language(state: Option<i64>) -> Input {
    Input::Select {
        name: "Language".to_string(),
        values: texts(&["Any", "English", "Japanese", "Chinese"]),
        state,
    }
}

fn blacklist(state: Option<&str>) -> Input {
    Input::Text { name: "Blacklist Tag".to_string(), state: state.map(|s| s.to_string()) }
}

fn text_filter(name: &str, state: Option<&str>) -> Input {
    Input::Text { name: name.to_string(), state: state.map(|s| s.to_string()) }
}

fn sort_filter(state: Option<i64>) -> Input {
    Input::Select {
        name: "Sort".to_string(),
        values: texts(&["Popular", "Popular Week", "Popular Today", "Recent"]),
        state,
    }
}

fn configured() -> NHentai {
    let mut source = NHentai::new();
    source.set_preferences(vec![blacklist(Some("posession")), language(Some(1))]);
    source
}

const LISTING: &str = r#"<html><body><div class="container">
<div class="gallery"><a href="/g/101/" class="cover"><img class="lazyload" data-src="https://t3.nhentai.net/galleries/9001/thumb.jpg" src="x.gif"><div class="caption">First gallery</div></a></div>
<div class="gallery"><a href="/g/102/" class="cover"><img data-src="https://t5.nhentai.net/galleries/9002/thumb.png"><div class="caption">Second <b>gallery</b></div></a></div>
</div></body></html>"#;

const GALLERY: &str = r#"<html><body>
<div id="cover"><a href="/g/385965/1/"><img data-src="https://t.nhentai.net/galleries/2099700/cover.jpg"></a></div>
<h1 class="title"><span class="before">[Artist] </span><span class="pretty">Lady, Maid ni datsu</span><span class="after"> [English]</span></h1>
<h3 id="gallery_id"><span class="hash">#</span>385965</h3>
<section id="tags">
<div class="tag-container">Parodies: <span class="tags"><a href="/parody/first/"><span class="name">first</span><span class="count">1K</span></a><a href="/parody/other/"><span class="name">other</span></a></span></div>
<div class="tag-container">Tags: <span class="tags"><a href="/tag/maid/"><span class="name">maid</span></a><a href="/tag/glasses/"><span class="name">glasses</span></a></span></div>
<div class="tag-container">Artists: <span class="tags"><a href="/artist/someone/"><span class="name">someone</span></a></span></div>
<div class="tag-container">Groups: <span class="tags"><a href="/group/circle/"><span class="name">circle</span></a></span></div>
<div class="tag-container">Languages: <span class="tags"><a href="/language/english/"><span class="name">english</span></a></span></div>
<div class="tag-container">Categories: <span class="tags"><a href="/category/doujinshi/"><span class="name">doujinshi</span></a></span></div>
<div class="tag-container">Pages: <span class="tags"><a href="/search/?q=pages%3A24"><span class="name">24</span></a></span></div>
<div class="tag-container">Uploaded: <span class="tags"><time datetime="2021-12-30T16:03:31.713586+00:00">2 years ago</time></span></div>
</section>
<div class="thumb-container"><a class="gallerythumb" href="/g/385965/1/"><img data-src="https://t7.nhentai.net/galleries/2099700/1t.jpg"></a></div>
<div class="thumb-container"><a class="gallerythumb" href="/g/385965/2/"><img data-src="https://t3.nhentai.net/galleries/2099700/2t.jpg"></a></div>
<div class="thumb-container"><a class="gallerythumb" href="/g/385965/3/"><img data-src="https://t2.nhentai.net/galleries/2099700/3t.png"></a></div>
</body></html>"#;

#[test]
fn new_instance_has_default_preferences() {
    let source = NHentai::new();
    let stored = source.get_preferences();
    assert_eq!(stored.len(), 2);
    assert!(matches!(&stored[0], Input::Select { name, state: None, values } if name == "Language" && values.len() == 4));
    assert!(matches!(&stored[1], Input::Text { name, state: None } if name == "Blacklist Tag"));
}

#[test]
fn query_without_anything_is_a_pair_of_quotes() {
    assert_eq!(NHentai::new().query(None), "\"\"");
    assert_eq!(NHentai::new().query(Some(vec![])), "\"\"");
}

#[test]
fn query_applies_stored_preferences() {
    assert_eq!(configured().query(None), "language:english -tag:posession");
}

#[test]
fn query_language_any_or_out_of_range_adds_nothing() {
    let mut source = NHentai::new();
    source.set_preferences(vec![language(Some(0))]);
    assert_eq!(source.query(None), "\"\"");
    source.set_preferences(vec![language(Some(4))]);
    assert_eq!(source.query(None), "\"\"");
    source.set_preferences(vec![language(Some(-1))]);
    assert_eq!(source.query(None), "\"\"");
    source.set_preferences(vec![language(Some(3))]);
    assert_eq!(source.query(None), "language:chinese");
}

#[test]
fn query_blacklist_splits_and_trims() {
    let mut source = NHentai::new();
    source.set_preferences(vec![blacklist(Some(" a b , c,"))]);
    assert_eq!(source.query(None), "-tag:a b -tag:c -tag:");
}

#[test]
fn query_with_filters_adds_terms_and_sort() {
    let filters = vec![
        text_filter("Tag", Some("-big breasts, Glasses")),
        text_filter("Characters", None),
        text_filter("Parodies", Some(" azur lane ")),
        sort_filter(Some(1)),
    ];
    assert_eq!(
        configured().query(Some(filters)),
        "language:english -tag:posession -tag:big breasts tag:Glasses parodies:azur lane&sort=popular-week"
    );
}

#[test]
fn query_ignores_filters_of_undeclared_names() {
    assert_eq!(NHentai::new().query(Some(vec![text_filter("Foo", Some("x"))])), "\"\"");
    assert_eq!(
        NHentai::new().query(Some(vec![
            text_filter("Foo", Some("x")),
            text_filter("Groups", Some(" g ")),
            text_filter("tag", Some("lower")),
            text_filter("Blacklist Tag", Some("not a filter")),
        ])),
        "groups:g"
    );
    for name in ["Tag", "Characters", "Categories", "Parodies", "Artists", "Groups"] {
        let query = NHentai::new().query(Some(vec![text_filter(name, Some("v"))]));
        assert_eq!(query, format!("{}:v", name.to_lowercase()));
    }
}

#[test]
fn query_sort_defaults_to_first_value_and_ignores_bad_index() {
    assert_eq!(NHentai::new().query(Some(vec![sort_filter(None)])), "\"\"&sort=popular");
    assert_eq!(NHentai::new().query(Some(vec![sort_filter(Some(9))])), "\"\"");
    assert_eq!(
        NHentai::new().query(Some(vec![sort_filter(Some(3)), sort_filter(Some(9))])),
        "\"\"&sort=recent"
    );
}

#[test]
fn query_tag_exclusion_drops_every_dash() {
    let filters = vec![text_filter("Tag", Some("-a-b"))];
    assert_eq!(NHentai::new().query(Some(filters)), "-tag:ab");
}

#[test]
fn query_tag_exclusion_is_read_after_trimming() {
    let filters = vec![text_filter("Tag", Some("a, -b"))];
    assert_eq!(NHentai::new().query(Some(filters)), "tag:a -tag:b");
    let filters = vec![text_filter("Tag", Some(" \t-big breasts ,glasses,  - "))];
    assert_eq!(NHentai::new().query(Some(filters)), "-tag:big breasts tag:glasses -tag:");
    let filters = vec![text_filter("Artists", Some("one , -two"))];
    assert_eq!(NHentai::new().query(Some(filters)), "artists:one , -two");
}

#[test]
fn popular_request_is_a_get_for_the_clamped_page() {
    let request = configured().popular_request(0);
    assert_eq!(request.method, Method::Get);
    assert!(request.headers.is_empty());
    assert_eq!(
        request.url,
        "https://nhentai.net/search/?q=language:english -tag:posession&sort=popular&page=1"
    );
    assert_eq!(
        NHentai::new().popular_request(12).url,
        "https://nhentai.net/search/?q=\"\"&sort=popular&page=12"
    );
}

#[test]
fn latest_requests_of_two_pages_differ_in_the_page_only() {
    let source = NHentai::new();
    assert_eq!(source.latest_request(1).url, "https://nhentai.net/search/?q=\"\"&page=1");
    assert_eq!(source.latest_request(2).url, "https://nhentai.net/search/?q=\"\"&page=2");
    assert_eq!(source.latest_request(-5).url, "https://nhentai.net/search/?q=\"\"&page=1");
}

#[test]
fn search_without_query_and_filters_is_invalid() {
    let source = NHentai::new();
    assert_eq!(source.search_request(1, None, None).unwrap_err(), SourceError::InvalidArgument);
    assert_eq!(source.search_request(-3, None, None).unwrap_err(), SourceError::InvalidArgument);
}

#[test]
fn search_by_text_and_by_filters() {
    let source = NHentai::new();
    let by_text = source.search_request(2, Some("azur lane".to_string()), None).unwrap();
    assert_eq!(by_text.url, "https://nhentai.net/search/?q=azur lane&sort=popular&page=2");
    let with_preferences = configured().search_request(2, Some("azur lane".to_string()), None).unwrap();
    assert_eq!(
        with_preferences.url,
        "https://nhentai.net/search/?q=language:english -tag:posession azur lane&sort=popular&page=2"
    );
    let by_filters = source
        .search_request(1, Some("unused".to_string()), Some(vec![text_filter("Artists", Some("x"))]))
        .unwrap();
    assert_eq!(by_filters.url, "https://nhentai.net/search/?q=artists:x&page=1");
}

#[test]
fn gallery_request_appends_the_path() {
    assert_eq!(NHentai::new().gallery_request("/g/385965").url, "https://nhentai.net/g/385965/");
}

#[test]
fn listing_with_two_items_gives_two_entries() {
    let list = NHentai::new().parse_manga_list(LISTING).unwrap();
    assert_eq!(list.len(), 2);
    assert_eq!(list[0].source_id, 6);
    assert_eq!(list[0].path, "/g/101/");
    assert_eq!(list[0].title, "First gallery");
    assert_eq!(list[0].cover_url, "https://t3.nhentai.net/galleries/9001/thumb.jpg");
    assert_eq!(list[1].path, "/g/102/");
    assert_eq!(list[1].title, "Second ");
    assert_eq!(list[1].cover_url, "https://t5.nhentai.net/galleries/9002/thumb.png");
    for entry in &list {
        assert!(entry.author.is_empty() && entry.genre.is_empty());
        assert!(entry.status.is_none() && entry.description.is_none());
    }
}

#[test]
fn listing_without_items_is_empty() {
    let list = NHentai::new().parse_manga_list("<html><body><p>nothing</p></body></html>").unwrap();
    assert!(list.is_empty());
}

#[test]
fn listing_item_without_a_field_fails() {
    let source = NHentai::new();
    let no_cover = r#"<div class="gallery"><a href="/g/1/"><img src="x"><div class="caption">t</div></a></div>"#;
    assert_eq!(source.parse_manga_list(no_cover).unwrap_err(), SourceError::ParseError(Cause::Cover));
    let no_path = r#"<div class="gallery"><a><img data-src="c"><div class="caption">t</div></a></div>"#;
    assert_eq!(source.parse_manga_list(no_path).unwrap_err(), SourceError::ParseError(Cause::Path));
    let no_title = r#"<div class="gallery"><a href="/g/1/"><img data-src="c"><div class="caption"></div></a></div>"#;
    assert_eq!(source.parse_manga_list(no_title).unwrap_err(), SourceError::ParseError(Cause::Title));
    let second_bad = format!("{}{}", r#"<div class="gallery"><a href="/g/1/"><img data-src="c"><div class="caption">t</div></a></div>"#, no_path);
    assert_eq!(source.parse_manga_list(&second_bad).unwrap_err(), SourceError::ParseError(Cause::Path));
}

#[test]
fn detail_reads_every_field() {
    let detail = NHentai::new().parse_manga_detail("/g/385965".to_string(), GALLERY).unwrap();
    assert_eq!(detail.source_id, 6);
    assert_eq!(detail.title, "Lady, Maid ni datsu");
    assert_eq!(detail.path, "/g/385965");
    assert_eq!(detail.cover_url, "https://t.nhentai.net/galleries/2099700/cover.jpg");
    assert_eq!(detail.author, vec!["someone"]);
    assert_eq!(detail.genre, vec!["maid", "glasses"]);
    assert_eq!(detail.status, None);
    assert_eq!(
        detail.description.unwrap(),
        "#385965\nParodies: first,other\nLanguages: english\nCategories: doujinshi\nPages: 24"
    );
}

#[test]
fn detail_without_title_fails() {
    let html = r#"<div id="cover"><a><img data-src="c.jpg"></a></div><h1 class="title"></h1>"#;
    let out = NHentai::new().parse_manga_detail("/g/1".to_string(), html);
    assert_eq!(out.unwrap_err(), SourceError::ParseError(Cause::Title));
}

#[test]
fn detail_without_cover_fails() {
    let html = r#"<h1 class="title"><span class="pretty">T</span></h1>"#;
    let out = NHentai::new().parse_manga_detail("/g/1".to_string(), html);
    assert_eq!(out.unwrap_err(), SourceError::ParseError(Cause::Cover));
}

#[test]
fn detail_with_title_and_cover_only_succeeds() {
    let html = r#"<div id="cover"><a><img data-src="c.jpg"></a></div><h1 class="title"><span class="pretty">T</span></h1>"#;
    let detail = NHentai::new().parse_manga_detail("/g/1".to_string(), html).unwrap();
    assert_eq!(detail.title, "T");
    assert!(detail.author.is_empty());
    assert!(detail.genre.is_empty());
    assert_eq!(detail.description.unwrap(), "");
}

#[test]
fn chapters_is_one_chapter_with_group_and_time() {
    let chapters = NHentai::new().parse_chapters("/g/385965".to_string(), GALLERY).unwrap();
    assert_eq!(chapters.len(), 1);
    assert_eq!(chapters[0].source_id, 6);
    assert_eq!(chapters[0].title, "Chapter 1");
    assert_eq!(chapters[0].path, "/g/385965");
    assert_eq!(chapters[0].number, "1");
    assert_eq!(chapters[0].scanlator.as_deref(), Some("circle"));
    assert_eq!(chapters[0].uploaded, 1640880211);
}

#[test]
fn chapters_without_readable_time_has_uploaded_zero() {
    let source = NHentai::new();
    let missing = source.parse_chapters("/g/1".to_string(), "<p></p>").unwrap();
    assert_eq!(missing[0].uploaded, 0);
    assert_eq!(missing[0].scanlator, None);
    let unreadable = r#"<span class="tags"><time datetime="yesterday">x</time></span>"#;
    assert_eq!(source.parse_chapters("/g/1".to_string(), unreadable).unwrap()[0].uploaded, 0);
    let no_attr = r#"<span class="tags"><time>x</time><time datetime="2021-12-30T16:03:31.713586+00:00">y</time></span>"#;
    assert_eq!(source.parse_chapters("/g/1".to_string(), no_attr).unwrap()[0].uploaded, 0);
}

#[test]
fn pages_are_rewritten_in_order() {
    let pages = NHentai::new().parse_pages(GALLERY).unwrap();
    assert_eq!(
        pages,
        vec![
            "https://i7.nhentai.net/galleries/2099700/1.jpg",
            "https://i3.nhentai.net/galleries/2099700/2.jpg",
            "https://i2.nhentai.net/galleries/2099700/3.png",
        ]
    );
}

#[test]
fn page_without_an_address_fails() {
    let html = r#"<div class="thumb-container"><a class="gallerythumb"><img data-src="https://t7.nhentai.net/galleries/2099700/1t.jpg"></a></div>
<div class="thumb-container"><a class="gallerythumb"><img src="no-address.gif"></a></div>"#;
    assert_eq!(NHentai::new().parse_pages(html).unwrap_err(), SourceError::ParseError(Cause::Page));
}

#[test]
fn page_that_does_not_match_fails() {
    let html = r#"<div class="thumb-container"><a class="gallerythumb"><img data-src="http://elsewhere/1.jpg"></a></div>"#;
    assert_eq!(NHentai::new().parse_pages(html).unwrap_err(), SourceError::ParseError(Cause::Page));
}

#[test]
fn filter_list_names_the_filters() {
    let names: Vec<String> = NHentai::new().filter_list().iter().map(|f| f.name()).collect();
    assert_eq!(names, vec!["Tag", "Characters", "Categories", "Parodies", "Artists", "Groups", "Sort"]);
}

#[test]
fn source_info_is_fixed() {
    let info = NHentai::new().get_source_info();
    assert_eq!(info.id, 6);
    assert_eq!(info.name, "NHentai");
    assert_eq!(info.url, "https://nhentai.net");
    assert!(info.nsfw);
    assert!(matches!(&info.languages, manga_extensions::model::Lang::Multi(codes) if codes == &vec!["en".to_string(), "jp".to_string(), "ch".to_string()]));
}

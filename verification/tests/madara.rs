use manga_extensions::error::{Cause, SourceError};
use manga_extensions::input::Input;
use manga_extensions::request::Method;
use manga_extensions::three_sixty_five_manga::ThreeSixtyFiveManga;
use manga_extensions::tritinia_scans::TritiniaScans;

const PAGE_ONE: &str = r#"<div class="page-listing-item">
<div class="page-item-detail manga"><div class="item-thumb"><a href="https://harimanga.com/manga/first-work/"><img src="https://harimanga.com/covers/first.jpg"></a></div>
<div class="item-summary"><div class="post-title font-title"><h3 class="h5"><a href="https://harimanga.com/manga/first-work/">First Work</a></h3></div></div></div>
<div class="page-item-detail manga"><div class="item-thumb"><a href="https://harimanga.com/manga/second-work/"><img src="https://harimanga.com/covers/second.jpg"></a></div>
<div class="item-summary"><div class="post-title font-title"><h3 class="h5"><a href="https://harimanga.com/manga/second-work/">Second Work</a></h3></div></div></div>
</div>"#;

const PAGE_TWO: &str = r#"<div class="page-item-detail manga"><a href="https://harimanga.com/manga/third-work/"><img src="https://harimanga.com/covers/third.jpg"></a>
<div class="post-title"><h3><a href="https://harimanga.com/manga/third-work/">Third Work</a></h3></div></div>"#;

const DETAIL: &str = r#"<div class="post-title"><h1> How To Make A Loving Savior an Emperor </h1></div>
<div class="summary_image"><a><img src="https://harimanga.com/covers/savior.jpg"></a></div>
<div class="author-content"><a href="/a/1">Writer</a></div>
<div class="genres-content"><a>Drama</a>, <a>Fantasy</a></div>
<div class="post-status"><div class="summary-content"> OnGoing </div></div>
<div class="summary__content"><p>An emperor is made.</p></div>
<ul><li class="wp-manga-chapter"><a href="https://harimanga.com/manga/how-to-make-a-loving-savior-an-emperor/chapter-9/"> Chapter 9 </a>
<span class="chapter-release-date"><i>January 02, 2024</i></span></li>
<li class="wp-manga-chapter"><a href="https://harimanga.com/manga/how-to-make-a-loving-savior-an-emperor/chapter-8/">Chapter 8</a></li></ul>"#;

const READER: &str = r#"<div class="reading-content"><div class="page-break"><img src="https://cdn.example/9/1.jpg"></div>
<div class="page-break"><img src="https://cdn.example/9/2.jpg"></div></div>"#;

const READER_WITH_A_GAP: &str = r#"<div class="reading-content"><div class="page-break"><img src="https://cdn.example/9/1.jpg"></div>
<div class="page-break"><img data-lazy="x"></div><div class="page-break"><img src="https://cdn.example/9/2.jpg"></div></div>"#;

#[test]
fn listing_requests_are_posted_with_headers() {
    let source = ThreeSixtyFiveManga::new();
    let popular = source.popular_request(1);
    assert_eq!(popular.method, Method::Post);
    assert_eq!(popular.url, "https://harimanga.com/manga/page/1/?m_orderby=trending");
    let headers: Vec<(String, String)> = popular.headers.iter().map(|h| (h.name.clone(), h.value.clone())).collect();
    assert_eq!(
        headers,
        vec![
            ("Referer".to_string(), "https://harimanga.com".to_string()),
            ("X-Requested-With".to_string(), "XMLHttpRequest".to_string()),
        ]
    );
    assert_eq!(source.latest_request(2).url, "https://harimanga.com/manga/page/2/?m_orderby=latest");
    assert_eq!(source.latest_request(0).url, "https://harimanga.com/manga/page/1/?m_orderby=latest");
    assert_eq!(TritiniaScans::new().popular_request(3).url, "https://tritinia.org/manga/page/3/?m_orderby=trending");
}

#[test]
fn search_needs_a_text() {
    let source = ThreeSixtyFiveManga::new();
    assert_eq!(source.search_request(1, None, None).unwrap_err(), SourceError::InvalidArgument);
    let filters: Vec<Input> = vec![];
    assert_eq!(source.search_request(1, None, Some(filters)).unwrap_err(), SourceError::InvalidArgument);
    let request = source.search_request(1, Some("the+only".to_string()), None).unwrap();
    assert_eq!(request.url, "https://harimanga.com/page/1/?s=the+only&post_type=wp-manga");
    assert_eq!(request.method, Method::Post);
    let other = TritiniaScans::new().search_request(2, Some("lord".to_string()), None).unwrap();
    assert_eq!(other.url, "https://tritinia.org/page/2/?s=lord&post_type=wp-manga");
    assert_eq!(TritiniaScans::new().search_request(2, None, None).unwrap_err(), SourceError::InvalidArgument);
}

#[test]
fn pages_of_a_listing_have_different_paths() {
    let source = ThreeSixtyFiveManga::new();
    let first = source.parse_manga_list(PAGE_ONE).unwrap();
    let second = source.parse_manga_list(PAGE_TWO).unwrap();
    assert_eq!(first.len(), 2);
    assert_eq!(second.len(), 1);
    assert_eq!(first[0].path, "/manga/first-work/");
    assert_eq!(first[0].title, "First Work");
    assert_eq!(first[0].cover_url, "https://harimanga.com/covers/first.jpg");
    assert_eq!(first[0].source_id, 17);
    assert_eq!(first[1].path, "/manga/second-work/");
    assert_eq!(second[0].path, "/manga/third-work/");
    for a in &first {
        for b in &second {
            assert_ne!(a.path, b.path, "{} should be different than {}", a.path, b.path);
        }
    }
}

#[test]
fn listed_path_leads_to_the_detail_request() {
    let source = ThreeSixtyFiveManga::new();
    let first = source.parse_manga_list(PAGE_ONE).unwrap();
    assert_eq!(source.page_request(&first[0].path).url, "https://harimanga.com/manga/first-work/");
    assert_eq!(source.page_request(&first[0].path).method, Method::Get);
}

#[test]
fn search_results_use_their_own_items() {
    let html = r#"<div class="c-tabs-item"><div class="row c-tabs-item__content"><div class="tab-thumb"><a href="https://tritinia.org/manga/lord/"><img src="l.jpg"></a></div>
    <div class="post-title"><h3><a href="https://tritinia.org/manga/lord/">Lord of Money</a></h3></div></div></div>"#;
    let found = TritiniaScans::new().parse_search_list(html).unwrap();
    assert_eq!(found.len(), 1);
    assert_eq!(found[0].title, "Lord of Money");
    assert_eq!(found[0].path, "/manga/lord/");
    assert_eq!(found[0].source_id, 20);
    assert!(TritiniaScans::new().parse_manga_list(html).unwrap().is_empty());
}

#[test]
fn listing_item_without_cover_fails() {
    let html = r#"<div class="page-item-detail"><div class="post-title"><a href="/m/x/">X</a></div></div>"#;
    let out = ThreeSixtyFiveManga::new().parse_manga_list(html);
    assert_eq!(out.unwrap_err(), SourceError::ParseError(Cause::Cover));
}

#[test]
fn detail_chapters_and_pages_are_read() {
    let source = ThreeSixtyFiveManga::new();
    let path = "/manga/how-to-make-a-loving-savior-an-emperor/".to_string();
    let detail = source.parse_manga_detail(path.clone(), DETAIL).unwrap();
    assert_eq!(detail.title, "How To Make A Loving Savior an Emperor");
    assert_eq!(detail.path, path);
    assert_eq!(detail.author, vec!["Writer"]);
    assert_eq!(detail.genre, vec!["Drama", "Fantasy"]);
    assert_eq!(detail.status.as_deref(), Some("OnGoing"));
    assert_eq!(detail.description.as_deref(), Some("An emperor is made."));
    assert_eq!(detail.cover_url, "https://harimanga.com/covers/savior.jpg");
    let chapters = source.parse_chapters(DETAIL).unwrap();
    assert_eq!(chapters.len(), 2);
    assert_eq!(chapters[0].path, "/manga/how-to-make-a-loving-savior-an-emperor/chapter-9/");
    assert_eq!(chapters[0].title, "Chapter 9");
    assert_eq!(chapters[0].number, "9");
    assert_eq!(chapters[0].uploaded, 1704153600);
    assert_eq!(chapters[1].uploaded, 0);
    let pages = source.parse_pages(READER).unwrap();
    assert_eq!(pages, vec!["https://cdn.example/9/1.jpg", "https://cdn.example/9/2.jpg"]);
}

#[test]
fn madara_sources_say_what_they_are() {
    let a = ThreeSixtyFiveManga::new().get_source_info();
    assert_eq!((a.id, a.name.as_str(), a.url.as_str(), a.nsfw), (17, "365Manga", "https://harimanga.com", false));
    assert_eq!(a.icon, "https://i.imgur.com/q1r31vg.png");
    let b = TritiniaScans::new().get_source_info();
    assert_eq!((b.id, b.name.as_str(), b.url.as_str(), b.nsfw), (20, "TritiniaScans", "https://tritinia.org", false));
    assert!(ThreeSixtyFiveManga::new().filter_list().is_empty());
    let mut source = TritiniaScans::new();
    source.set_preferences(vec![Input::Text { name: "x".to_string(), state: None }]);
    assert!(source.get_preferences().is_empty());
}

#[test]
fn a_page_without_an_address_fails_the_chapter() {
    assert_eq!(
        ThreeSixtyFiveManga::new().parse_pages(READER_WITH_A_GAP).unwrap_err(),
        SourceError::ParseError(Cause::Page)
    );
    assert_eq!(
        TritiniaScans::new().parse_pages(READER_WITH_A_GAP).unwrap_err(),
        SourceError::ParseError(Cause::Page)
    );
}

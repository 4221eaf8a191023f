use manga_extensions::three_sixty_five_manga::ThreeSixtyFiveManga;
use manga_extensions::tritinia_scans::TritiniaScans;

fn three_sixty_five_manga_listing(slug: &str) -> String {
    format!(
        r#"<div class="page-item-detail"><a href="https://harimanga.com/manga/{slug}/"><img src="https://harimanga.com/covers/{slug}.jpg"></a><div class="post-title"><h3><a href="https://harimanga.com/manga/{slug}/">Work {slug}</a></h3></div></div>"#
    )
}

#[test]
fn three_sixty_five_manga_test_get_latest_manga() {
    let source = ThreeSixtyFiveManga::new();
    assert_ne!(source.latest_request(1).url, source.latest_request(2).url);
    let res1 = source.parse_manga_list(&three_sixty_five_manga_listing("one")).unwrap();
    assert!(!res1.is_empty());
    let res2 = source.parse_manga_list(&three_sixty_five_manga_listing("two")).unwrap();
    assert!(!res2.is_empty());
    assert_ne!(res1[0].path, res2[0].path, "{} should be different than {}", res1[0].path, res2[0].path);
}

#[test]
fn three_sixty_five_manga_test_get_popular_manga() {
    let source = ThreeSixtyFiveManga::new();
    assert_eq!(source.popular_request(1).url, "https://harimanga.com/manga/page/1/?m_orderby=trending");
    let res = source.parse_manga_list(&three_sixty_five_manga_listing("one")).unwrap();
    assert!(!res.is_empty());
}

#[test]
fn three_sixty_five_manga_test_search_manga() {
    let source = ThreeSixtyFiveManga::new();
    let request = source.search_request(1, Some("the+only".to_string()), None).unwrap();
    assert_eq!(request.url, "https://harimanga.com/page/1/?s=the+only&post_type=wp-manga");
    let found = r#"<div class="c-tabs-item"><div><a href="https://harimanga.com/manga/x/"><img src="x.jpg"></a><div class="post-title"><a href="https://harimanga.com/manga/x/">X</a></div></div></div>"#;
    let res = source.parse_search_list(found).unwrap();
    assert!(!res.is_empty());
}

#[test]
fn three_sixty_five_manga_test_get_manga_detail() {
    let source = ThreeSixtyFiveManga::new();
    let path = "/manga/how-to-make-a-loving-savior-an-emperor/".to_string();
    assert_eq!(source.page_request(&path).url, "https://harimanga.com/manga/how-to-make-a-loving-savior-an-emperor/");
    let page = r#"<div class="post-title"><h1>How To Make A Loving Savior an Emperor</h1></div>"#;
    let res = source.parse_manga_detail(path, page).unwrap();
    assert_eq!(res.title, "How To Make A Loving Savior an Emperor");
}

#[test]
fn three_sixty_five_manga_test_get_chapters() {
    let source = ThreeSixtyFiveManga::new();
    assert_eq!(source.page_request("/manga/how-to-make-a-loving-savior-an-emperor/").url, "https://harimanga.com/manga/how-to-make-a-loving-savior-an-emperor/");
    let page = r#"<ul><li class="wp-manga-chapter"><a href="https://harimanga.com/manga/how-to-make-a-loving-savior-an-emperor/chapter-9/">Chapter 1</a></li></ul>"#;
    let res = source.parse_chapters(page).unwrap();
    assert!(!res.is_empty());
    println!("{res:?}");
}

#[test]
fn three_sixty_five_manga_test_get_pages() {
    let source = ThreeSixtyFiveManga::new();
    assert_eq!(source.page_request("/manga/how-to-make-a-loving-savior-an-emperor/chapter-9/").url, "https://harimanga.com/manga/how-to-make-a-loving-savior-an-emperor/chapter-9/");
    let page = r#"<div class="page-break"><img src="https://cdn.example/1.jpg"></div>"#;
    let res = source.parse_pages(page).unwrap();
    assert!(!res.is_empty());
    println!("{res:?}");
}

fn tritinia_scans_listing(slug: &str) -> String {
    format!(
        r#"<div class="page-item-detail"><a href="https://tritinia.org/manga/{slug}/"><img src="https://tritinia.org/covers/{slug}.jpg"></a><div class="post-title"><h3><a href="https://tritinia.org/manga/{slug}/">Work {slug}</a></h3></div></div>"#
    )
}

#[test]
fn tritinia_scans_test_get_latest_manga() {
    let source = TritiniaScans::new();
    assert_ne!(source.latest_request(1).url, source.latest_request(2).url);
    let res1 = source.parse_manga_list(&tritinia_scans_listing("one")).unwrap();
    assert!(!res1.is_empty());
    let res2 = source.parse_manga_list(&tritinia_scans_listing("two")).unwrap();
    assert!(!res2.is_empty());
    assert_ne!(res1[0].path, res2[0].path, "{} should be different than {}", res1[0].path, res2[0].path);
}

#[test]
fn tritinia_scans_test_get_popular_manga() {
    let source = TritiniaScans::new();
    assert_eq!(source.popular_request(1).url, "https://tritinia.org/manga/page/1/?m_orderby=trending");
    let res = source.parse_manga_list(&tritinia_scans_listing("one")).unwrap();
    assert!(!res.is_empty());
}

#[test]
fn tritinia_scans_test_search_manga() {
    let source = TritiniaScans::new();
    let request = source.search_request(1, Some("lord".to_string()), None).unwrap();
    assert_eq!(request.url, "https://tritinia.org/page/1/?s=lord&post_type=wp-manga");
    let found = r#"<div class="c-tabs-item"><div><a href="https://tritinia.org/manga/x/"><img src="x.jpg"></a><div class="post-title"><a href="https://tritinia.org/manga/x/">X</a></div></div></div>"#;
    let res = source.parse_search_list(found).unwrap();
    assert!(!res.is_empty());
}

#[test]
fn tritinia_scans_test_get_manga_detail() {
    let source = TritiniaScans::new();
    let path = "/manga/31c3d92e-d3f3-48c9-b151-e3e2e627acdd/".to_string();
    assert_eq!(source.page_request(&path).url, "https://tritinia.org/manga/31c3d92e-d3f3-48c9-b151-e3e2e627acdd/");
    let page = r#"<div class="post-title"><h1>Lord of Money</h1></div>"#;
    let res = source.parse_manga_detail(path, page).unwrap();
    assert_eq!(res.title, "Lord of Money");
}

#[test]
fn tritinia_scans_test_get_chapters() {
    let source = TritiniaScans::new();
    assert_eq!(source.page_request("/manga/31c3d92e-d3f3-48c9-b151-e3e2e627acdd/").url, "https://tritinia.org/manga/31c3d92e-d3f3-48c9-b151-e3e2e627acdd/");
    let page = r#"<ul><li class="wp-manga-chapter"><a href="https://tritinia.org/manga/31c3d92e-d3f3-48c9-b151-e3e2e627acdd/ch-1/">Chapter 1</a></li></ul>"#;
    let res = source.parse_chapters(page).unwrap();
    assert!(!res.is_empty());
    println!("{res:?}");
}

#[test]
fn tritinia_scans_test_get_pages() {
    let source = TritiniaScans::new();
    assert_eq!(source.page_request("/manga/31c3d92e-d3f3-48c9-b151-e3e2e627acdd/ch-1/").url, "https://tritinia.org/manga/31c3d92e-d3f3-48c9-b151-e3e2e627acdd/ch-1/");
    let page = r#"<div class="page-break"><img src="https://cdn.example/1.jpg"></div>"#;
    let res = source.parse_pages(page).unwrap();
    assert!(!res.is_empty());
    println!("{res:?}");
}

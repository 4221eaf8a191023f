use manga_extensions::error::SourceError;
use manga_extensions::input::{Input, InputType};
use manga_extensions::request::Method;
use manga_extensions::weebcentral::Weebcentral;

const TAIL: &str = "&official=Any&anime=Any&adult=Any&display_mode=Full+Display";

fn select_of(name: &str, values: &[&str], state: Option<i64>) -> Input {
    Input::Select {
        name: name.to_string(),
        values: values.iter().map(|v| InputType::Text(v.to_string())).collect(),
        state,
    }
}

#[test]
fn listings_page_by_thirty_two() {
    let source = Weebcentral::new();
    let popular = source.popular_request(1);
    assert_eq!(popular.method, Method::Get);
    assert_eq!(
        popular.url,
        format!("https://weebcentral.com/search/data?limit=32&offset=0&text=&sort=Popularity&order=Descending{}", TAIL)
    );
    assert_eq!(
        source.latest_request(3).url,
        format!("https://weebcentral.com/search/data?limit=32&offset=64&text=&sort=Latest+Updates&order=Descending{}", TAIL)
    );
    assert_eq!(source.latest_request(-1).url, source.latest_request(1).url);
}

#[test]
fn search_by_text_filters_or_nothing() {
    let source = Weebcentral::new();
    assert_eq!(source.search_request(1, None, None).unwrap_err(), SourceError::InvalidArgument);
    assert_eq!(
        source.search_request(2, Some("one piece".to_string()), None).unwrap().url,
        format!("https://weebcentral.com/search/data?limit=32&offset=32&text=one piece&sort=Best+Match&order=Descending{}", TAIL)
    );
    let filters = vec![
        Input::Text { name: "Title".to_string(), state: Some("naruto".to_string()) },
        select_of("Sort", &["Best Match", "Alphabet", "Popularity"], Some(1)),
        select_of("Sort", &["Best Match"], Some(5)),
        select_of("Order", &["Descending", "Ascending"], Some(1)),
        select_of("Other", &["x"], Some(0)),
    ];
    assert_eq!(
        source.search_request(1, Some("unused".to_string()), Some(filters)).unwrap().url,
        format!("https://weebcentral.com/search/data?limit=32&offset=0&text=naruto&sort=Alphabet&order=Ascending{}", TAIL)
    );
    assert_eq!(
        source.search_request(1, None, Some(vec![])).unwrap().url,
        format!("https://weebcentral.com/search/data?limit=32&offset=0&text=&sort=Best+Match&order=Descending{}", TAIL)
    );
}

#[test]
fn series_chapter_and_page_requests() {
    let source = Weebcentral::new();
    assert_eq!(source.detail_request("/series/01J76/One-Piece").url, "https://weebcentral.com/series/01J76/One-Piece");
    assert_eq!(
        source.chapters_request("/series/01J76/One-Piece").url,
        "https://weebcentral.com/series/01J76/full-chapter-list"
    );
    assert_eq!(source.chapters_request("/series/01J76").url, "https://weebcentral.com/series/01J76/full-chapter-list");
    assert_eq!(source.chapters_request("/odd").url, "https://weebcentral.com/odd/full-chapter-list");
    assert_eq!(
        source.pages_request("/chapters/01J99").url,
        "https://weebcentral.com/chapters/01J99/images?is_prev=False&current_page=1&reading_style=long_strip"
    );
}

#[test]
fn pages_are_parsed_from_fixtures() {
    let source = Weebcentral::new();
    let listing = r#"<article class="bg-base-300"><section><a href="https://weebcentral.com/series/01J76/One-Piece"><picture><img src="https://temp.compsci88.com/cover/01J76.webp"></picture></a></section>
      <section><a class="link link-hover" href="https://weebcentral.com/series/01J76/One-Piece">One Piece</a></section></article>"#;
    let list = source.parse_manga_list(listing).unwrap();
    assert_eq!(list.len(), 1);
    assert_eq!(list[0].path, "/series/01J76/One-Piece");
    assert_eq!(list[0].title, "One Piece");
    assert_eq!(list[0].source_id, 3);
    let series = r#"<h1>One Piece</h1><picture><img src="c.webp"></picture><a href="/search?author=Oda">Oda</a>
      <a href="/search?included_tag=Action">Action</a><a href="/search?included_status=Ongoing">Ongoing</a>
      <p class="whitespace-pre-wrap">Pirates.</p>"#;
    let detail = source.parse_manga_detail("/series/01J76/One-Piece".to_string(), series).unwrap();
    assert_eq!(detail.title, "One Piece");
    assert_eq!(detail.author, vec!["Oda"]);
    assert_eq!(detail.genre, vec!["Action"]);
    assert_eq!(detail.status.as_deref(), Some("Ongoing"));
    assert_eq!(detail.description.as_deref(), Some("Pirates."));
    let chapters = r#"<div x-data="{ open: false }"><a href="https://weebcentral.com/chapters/01J99"><span class="grow flex"><span>Chapter 1100.5</span></span>
      <time datetime="2024-10-01T12:00:00.000Z">x</time></a></div>"#;
    let read = source.parse_chapters(chapters).unwrap();
    assert_eq!(read.len(), 1);
    assert_eq!(read[0].path, "/chapters/01J99");
    assert_eq!(read[0].number, "1100.5");
    assert_eq!(read[0].title, "Chapter 1100.5");
    assert_eq!(read[0].uploaded, 1727784000);
    let images = r#"<section x-data="scroll"><img src="https://host/1.png"><img src="https://host/2.png"></section>"#;
    assert_eq!(source.parse_pages(images).unwrap(), vec!["https://host/1.png", "https://host/2.png"]);
}

#[test]
fn weebcentral_says_what_it_is() {
    let source = Weebcentral::new();
    let info = source.get_source_info();
    assert_eq!((info.id, info.name.as_str(), info.url.as_str(), info.nsfw), (3, "WeebCentral", "https://weebcentral.com", false));
    let names: Vec<String> = source.filter_list().iter().map(|f| f.name()).collect();
    assert_eq!(names, vec!["Title", "Sort", "Order"]);
    assert!(source.get_preferences().is_empty());
}

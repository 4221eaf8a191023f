use manga_extensions::mangadex::dto::{
    AtHomeChapter, ChapterAttributes, CoverAttributes, Data, Localized, MangaAttributes,
    Relationship, Results, ResultsAtHome,
};
use manga_extensions::mangadex::Mangadex;

fn manga(id: &str, title: &str) -> Relationship {
    Relationship::Manga {
        id: id.to_string(),
        attributes: Some(MangaAttributes {
            title: vec![Localized { language: "en".to_string(), text: title.to_string() }],
            description: vec![],
            status: None,
            tags: vec![],
        }),
        relationships: vec![Relationship::CoverArt {
            id: "c".to_string(),
            attributes: Some(CoverAttributes { file_name: "cover.jpg".to_string() }),
        }],
    }
}

fn listing(ids: &[&str]) -> Results {
    Results { data: Data::Multiple { data: ids.iter().map(|id| manga(id, "Some title")).collect() } }
}

#[test]
fn lib_test_get_latest_manga() {
    let mangadex = Mangadex::new();
    assert_eq!(
        mangadex.latest_request(1).url,
        "https://api.mangadex.org/manga?limit=20&offset=0&includes[]=cover_art&includes[]=author&includes[]=artist"
    );
    let res = mangadex.parse_manga_list(listing(&["a", "b"])).unwrap();
    assert!(!res.is_empty());
}

#[test]
fn lib_test_get_popular_manga() {
    let mangadex = Mangadex::new();
    assert_eq!(
        mangadex.popular_request(1).url,
        "https://api.mangadex.org/manga?limit=20&offset=0&order[followedCount]=desc&includes[]=cover_art&includes[]=author&includes[]=artist"
    );
    let res = mangadex.parse_manga_list(listing(&["a", "b"])).unwrap();
    assert!(!res.is_empty());
}

#[test]
fn lib_test_search_manga() {
    let mangadex = Mangadex::new();
    let request = mangadex.search_request(1, Some("komi".to_string()), None).unwrap();
    assert!(request.url.contains("&title=komi&"));
    let res = mangadex.parse_manga_list(listing(&["a96676e5-8ae2-425e-b549-7f15dd34a6d8"])).unwrap();
    assert!(!res.is_empty());
}

#[test]
fn lib_test_get_manga_detail() {
    let mangadex = Mangadex::new();
    let path = "/manga/a96676e5-8ae2-425e-b549-7f15dd34a6d8".to_string();
    assert_eq!(
        mangadex.detail_request(&path).url,
        "https://api.mangadex.org/manga/a96676e5-8ae2-425e-b549-7f15dd34a6d8?includes[]=author&includes[]=artist&includes[]=cover_art"
    );
    let answer = Results {
        data: Data::Single { data: manga("a96676e5-8ae2-425e-b549-7f15dd34a6d8", "Komi-san wa Komyushou Desu.") },
    };
    let res = mangadex.parse_manga_detail(answer).unwrap();
    assert_eq!(res.title, "Komi-san wa Komyushou Desu.");
    assert_eq!(res.path, path);
}

#[test]
fn lib_test_get_chapters() {
    let mangadex = Mangadex::new();
    let request = mangadex.chapters_request("/manga/a96676e5-8ae2-425e-b549-7f15dd34a6d8");
    assert!(request.url.starts_with("https://api.mangadex.org/manga/a96676e5-8ae2-425e-b549-7f15dd34a6d8/feed?"));
    let chapter = Relationship::Chapter {
        id: "03d3e4b9-db8d-4fb5-88fc-b6a087bd6410".to_string(),
        attributes: Some(ChapterAttributes {
            volume: Some("1".to_string()),
            chapter: Some("1".to_string()),
            title: None,
            publish_at: "2021-05-24T17:06:25+00:00".to_string(),
        }),
        relationships: vec![],
    };
    let res = mangadex.parse_chapters(Results { data: Data::Multiple { data: vec![chapter] } }).unwrap();
    assert!(!res.is_empty());
    assert_eq!(res[0].path, "/chapter/03d3e4b9-db8d-4fb5-88fc-b6a087bd6410");
}

#[test]
fn lib_test_get_pages() {
    let mangadex = Mangadex::new();
    assert_eq!(
        mangadex.pages_request("/chapter/03d3e4b9-db8d-4fb5-88fc-b6a087bd6410").url,
        "https://api.mangadex.org/at-home/server/03d3e4b9-db8d-4fb5-88fc-b6a087bd6410"
    );
    let res = mangadex.parse_pages(ResultsAtHome {
        base_url: "https://uploads.example".to_string(),
        chapter: AtHomeChapter { hash: "h".to_string(), data: vec!["1.png".to_string()] },
    });
    assert!(!res.is_empty());
}

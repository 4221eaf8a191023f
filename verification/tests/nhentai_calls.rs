use manga_extensions::input::{Input, InputType};
use manga_extensions::nhentai::NHentai;

fn create_test_instance() -> NHentai {
    let preferences: Vec<Input> = vec![
        Input::Text { name: "Blacklist Tag".to_string(), state: Some("posession".to_string()) },
        Input::Select {
            name: "Language".to_string(),
            values: vec![
                InputType::Text("Any".to_string()),
                InputType::Text("English".to_string()),
                InputType::Text("Japanese".to_string()),
                InputType::Text("Chinese".to_string()),
            ],
            state: Some(1),
        },
    ];
    let mut nhentai = NHentai::new();
    nhentai.set_preferences(preferences);
    nhentai
}

fn listing(first: &str, second: &str) -> String {
    let item = |id: &str| {
        format!(
            r#"<div class="gallery"><a href="/g/{id}/" class="cover"><img data-src="https://t1.nhentai.net/galleries/{id}/thumb.jpg"><div class="caption">Gallery {id}</div></a></div>"#
        )
    };
    format!("<html><body>{}{}</body></html>", item(first), item(second))
}

const GALLERY: &str = r#"<html><body><div id="cover"><a><img data-src="https://t.nhentai.net/galleries/2099700/cover.jpg"></a></div>
<h1 class="title"><span class="pretty">Lady, Maid ni datsu</span></h1><h3 id="gallery_id"><span class="hash">#</span>385965</h3>
<a href="/group/g/"><span class="name">group</span></a><span class="tags"><time datetime="2021-12-30T16:03:31.713586+00:00">t</time></span>
<div class="thumb-container"><a class="gallerythumb"><img data-src="https://t7.nhentai.net/galleries/2099700/1t.jpg"></a></div></body></html>"#;

#[test]
fn test_get_popular_manga() {
    let nhentai = create_test_instance();
    assert_eq!(
        nhentai.popular_request(1).url,
        "https://nhentai.net/search/?q=language:english -tag:posession&sort=popular&page=1"
    );
    let res = nhentai.parse_manga_list(&listing("11", "12")).unwrap();
    assert!(!res.is_empty());
}

#[test]
fn test_get_latest_manga() {
    let nhentai = create_test_instance();
    assert_ne!(nhentai.latest_request(1).url, nhentai.latest_request(2).url);
    let res1 = nhentai.parse_manga_list(&listing("21", "22")).unwrap();
    assert!(!res1.is_empty());
    let res2 = nhentai.parse_manga_list(&listing("23", "24")).unwrap();
    assert!(!res2.is_empty());
    assert_ne!(res1[0].path, res2[0].path, "{} should be different than {}", res1[0].path, res2[0].path);
}

#[test]
fn test_search_manga() {
    let nhentai = create_test_instance();
    let request = nhentai.search_request(1, Some("azur lane".to_string()), None).unwrap();
    assert_eq!(
        request.url,
        "https://nhentai.net/search/?q=language:english -tag:posession azur lane&sort=popular&page=1"
    );
    let res = nhentai.parse_manga_list(&listing("31", "32")).unwrap();
    assert!(!res.is_empty());
}

#[test]
fn test_search_manga_filter() {
    let nhentai = create_test_instance();
    let mut filters = nhentai.filter_list();
    for filter in filters.iter_mut() {
        let name = filter.name();
        match filter {
            Input::Select { state, .. } if name == "Sort" => *state = Some(1),
            Input::Text { state, .. } if name == "Tag" => *state = Some("-big breasts".to_string()),
            Input::Text { state, .. } if name == "Parodies" => *state = Some("azur lane".to_string()),
            _ => {}
        }
    }
    let request = nhentai.search_request(1, None, Some(filters)).unwrap();
    assert_eq!(
        request.url,
        "https://nhentai.net/search/?q=language:english -tag:posession -tag:big breasts parodies:azur lane&sort=popular-week&page=1"
    );
    let res = nhentai.parse_manga_list(&listing("41", "42")).unwrap();
    assert!(!res.is_empty());
}

#[test]
fn test_get_manga_detail() {
    let nhentai = create_test_instance();
    assert_eq!(nhentai.gallery_request("/g/385965").url, "https://nhentai.net/g/385965/");
    let res = nhentai.parse_manga_detail("/g/385965".to_string(), GALLERY).unwrap();
    assert_eq!(res.title, "Lady, Maid ni datsu");
}

#[test]
fn test_get_chapters() {
    let nhentai = create_test_instance();
    let res = nhentai.parse_chapters("/g/385965".to_string(), GALLERY).unwrap();
    assert!(!res.is_empty());
}

#[test]
fn test_get_pages() {
    let nhentai = create_test_instance();
    let res = nhentai.parse_pages(GALLERY).unwrap();
    assert!(!res.is_empty());
    let re = fancy_regex::Regex::new(r"https://i\d*.nhentai.net/galleries/2099700/1.jpg").unwrap();
    assert!(re.is_match(&res[0]).unwrap());
}

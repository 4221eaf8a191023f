use manga_extensions::engine::{
    chapters_from, collect_leading_texts, collect_texts, collect_whole_text, detail_from,
    find_number, listing_from, make_relative, pages_from, pick_first, pick_first_text,
    read_chapters, read_detail, read_listing, read_pages, read_uploaded, render, rewrite_page,
    AttrRule, ChaptersRule, DateRule, DetailRule, ListingRule, PagesRule, Piece, RewriteRule,
};
use manga_extensions::error::{Cause, SourceError};

fn s(text: &str) -> String {
    text.to_string()
}

fn texts(items: &[&[&str]]) -> Vec<Vec<String>> {
    items.iter().map(|e| e.iter().map(|t| t.to_string()).collect()).collect()
}

fn attr(selector: &str, name: &str) -> AttrRule {
    AttrRule { selector: s(selector), attr: s(name) }
}

#[test]
fn first_value_and_first_text() {
    assert_eq!(pick_first(&vec![None, Some(s("a")), Some(s("b"))]), Some(s("a")));
    assert_eq!(pick_first(&vec![None, None]), None);
    assert_eq!(pick_first(&vec![]), None);
    assert_eq!(pick_first_text(&texts(&[&[], &["x", "y"], &["z"]])), Some(s("x")));
    assert_eq!(pick_first_text(&texts(&[&[], &[]])), None);
}

#[test]
fn texts_are_collected_in_order() {
    let elements = texts(&[&["a", "b"], &[], &["c"]]);
    assert_eq!(collect_texts(&elements), vec!["a", "b", "c"]);
    assert_eq!(collect_leading_texts(&elements), vec!["a", "c"]);
    assert_eq!(collect_whole_text(&vec![s("#"), s("12"), s("3")]), "#123");
    assert_eq!(collect_whole_text(&vec![]), "");
}

#[test]
fn relative_cuts_the_base() {
    assert_eq!(make_relative(s("https://site/manga/x/"), Some("https://site")), "/manga/x/");
    assert_eq!(make_relative(s("/manga/x/"), Some("https://site")), "/manga/x/");
    assert_eq!(make_relative(s("https://site/manga/x/"), None), "https://site/manga/x/");
}

#[test]
fn number_is_the_first_written() {
    assert_eq!(find_number("Chapter 10.5 - The End 3"), "10.5");
    assert_eq!(find_number("Chapter 12"), "12");
    assert_eq!(find_number("Vol.2 Ch.7"), "2");
    assert_eq!(find_number("7."), "7");
    assert_eq!(find_number("7.x"), "7");
    assert_eq!(find_number("0.25.7"), "0.25");
    assert_eq!(find_number("no number"), "");
    assert_eq!(find_number(""), "");
    assert_eq!(find_number(".5"), "5");
}

#[test]
fn listing_disagreeing_selections_have_no_shape() {
    let out = listing_from(1, &vec![vec![Some(s("c"))]], &vec![], &vec![], None);
    assert_eq!(out.unwrap_err(), SourceError::ParseError(Cause::Shape));
}

#[test]
fn listing_from_plain_values() {
    let covers = vec![vec![None, Some(s("c1"))], vec![Some(s("c2"))]];
    let paths = vec![vec![Some(s("https://x/a"))], vec![Some(s("https://x/b"))]];
    let titles = vec![texts(&[&["A"]]), texts(&[&[], &["B", "ignored"]])].into_iter().collect::<Vec<_>>();
    let list = listing_from(9, &covers, &paths, &titles, Some("https://x")).unwrap();
    assert_eq!(list.len(), 2);
    assert_eq!((list[0].source_id, list[0].path.as_str(), list[0].title.as_str(), list[0].cover_url.as_str()), (9, "/a", "A", "c1"));
    assert_eq!((list[1].path.as_str(), list[1].title.as_str(), list[1].cover_url.as_str()), ("/b", "B", "c2"));
}

#[test]
fn template_is_rendered_from_groups() {
    let template = vec![Piece::Literal(s("a")), Piece::Group(2), Piece::Literal(s("-")), Piece::Group(0)];
    let groups = vec![Some(s("whole")), None, Some(s("two"))];
    assert_eq!(render(&template, &groups), Some(s("atwo-whole")));
    assert_eq!(render(&vec![Piece::Group(1)], &groups), None);
    assert_eq!(render(&vec![Piece::Group(3)], &groups), None);
    assert_eq!(render(&vec![], &groups), Some(s("")));
}

#[test]
fn rewrite_tells_failures_apart() {
    let template = vec![Piece::Group(1)];
    assert_eq!(rewrite_page(Ok(Some(vec![Some(s("w")), Some(s("g"))])), &template).unwrap(), "g");
    assert_eq!(rewrite_page(Ok(None), &template).unwrap_err(), SourceError::ParseError(Cause::Page));
    assert_eq!(
        rewrite_page(Ok(Some(vec![Some(s("w"))])), &template).unwrap_err(),
        SourceError::ParseError(Cause::Page)
    );
    let failure = fancy_regex::Regex::new("(").unwrap_err();
    assert_eq!(rewrite_page(Err(failure), &template).unwrap_err(), SourceError::ParseError(Cause::Pattern));
}

#[test]
fn pages_need_an_address_each() {
    let addresses = vec![Some(s("a1")), Some(s("b2"))];
    assert_eq!(pages_from(&addresses, &None).unwrap(), vec!["a1", "b2"]);
    let rule = Some(RewriteRule {
        pattern: s(r"^([a-z])(\d)$"),
        template: vec![Piece::Group(2), Piece::Literal(s(":")), Piece::Group(1)],
    });
    assert_eq!(pages_from(&addresses, &rule).unwrap(), vec!["1:a", "2:b"]);
    let missing = vec![Some(s("a1")), None, Some(s("b2"))];
    assert_eq!(pages_from(&missing, &None).unwrap_err(), SourceError::ParseError(Cause::Page));
    assert_eq!(pages_from(&missing, &rule).unwrap_err(), SourceError::ParseError(Cause::Page));
    assert_eq!(pages_from(&vec![None], &None).unwrap_err(), SourceError::ParseError(Cause::Page));
    let bad = vec![Some(s("a1")), Some(s("zz"))];
    assert_eq!(pages_from(&bad, &rule).unwrap_err(), SourceError::ParseError(Cause::Page));
    let broken = Some(RewriteRule { pattern: s("("), template: vec![] });
    assert_eq!(pages_from(&addresses, &broken).unwrap_err(), SourceError::ParseError(Cause::Pattern));
    assert!(pages_from(&vec![], &broken).unwrap().is_empty());
}

#[test]
fn a_page_element_without_an_address_fails_the_chapter() {
    let rule = PagesRule { image: attr("img", "src"), rewrite: None };
    assert_eq!(read_pages("<img src=\"p1\"><img src=\"p2\">", &rule).unwrap(), vec!["p1", "p2"]);
    assert_eq!(
        read_pages("<img src=\"p1\"><img alt=\"bare\"><img src=\"p3\">", &rule).unwrap_err(),
        SourceError::ParseError(Cause::Page)
    );
    assert!(read_pages("<p>nothing</p>", &rule).unwrap().is_empty());
}

#[test]
fn invalid_selectors_are_reported() {
    let rule = ListingRule { item: s("div["), cover: attr("img", "src"), path: attr("a", "href"), title: s("a"), base: None };
    assert_eq!(read_listing(1, "<div></div>", &rule).unwrap_err(), SourceError::ParseError(Cause::Selector));
    let pages = PagesRule { image: attr("img[", "src"), rewrite: None };
    assert_eq!(read_pages("<img src=x>", &pages).unwrap_err(), SourceError::ParseError(Cause::Selector));
}

fn detail_rule() -> DetailRule {
    DetailRule {
        title: s("h1"),
        cover: attr("img.cover", "src"),
        authors: s(".author"),
        genres: s(".genre"),
        status: s(".status"),
        description: s(".about"),
    }
}

#[test]
fn detail_needs_only_a_title() {
    let only_title = read_detail(4, s("/p"), "<h1> Only </h1>", &detail_rule()).unwrap();
    assert_eq!(only_title.title, "Only");
    assert_eq!(only_title.path, "/p");
    assert_eq!(only_title.source_id, 4);
    assert_eq!(only_title.cover_url, "");
    assert!(only_title.author.is_empty() && only_title.genre.is_empty());
    assert_eq!(only_title.status, None);
    assert_eq!(only_title.description, None);
    let none = read_detail(4, s("/p"), "<p class=about>text</p>", &detail_rule());
    assert_eq!(none.unwrap_err(), SourceError::ParseError(Cause::Title));
}

#[test]
fn detail_reads_all_fields() {
    let html = r#"<h1>T</h1><img class="cover" src="c.png"><a class="author">A1</a><a class="author">A2</a>
        <a class="genre">G</a><span class="status"> Ongoing </span><p class="about"> Words </p>"#;
    let detail = read_detail(4, s("/p"), html, &detail_rule()).unwrap();
    assert_eq!(detail.cover_url, "c.png");
    assert_eq!(detail.author, vec!["A1", "A2"]);
    assert_eq!(detail.genre, vec!["G"]);
    assert_eq!(detail.status.as_deref(), Some("Ongoing"));
    assert_eq!(detail.description.as_deref(), Some("Words"));
    let direct = detail_from(1, s("/q"), &texts(&[&["X"]]), &vec![], &vec![], &vec![], &vec![], &vec![]).unwrap();
    assert_eq!(direct.title, "X");
}

fn chapters_rule(date: DateRule) -> ChaptersRule {
    ChaptersRule { item: s("li"), link: attr("a", "href"), title: s("a"), date, base: Some(s("https://x")) }
}

#[test]
fn chapters_read_number_title_and_day() {
    let html = r#"<ul>
      <li><a href="https://x/m/ch-2/"> Chapter 2.5 - Two </a><span class="d"><i> March 05, 2023 </i></span></li>
      <li><a href="https://x/m/extra/"></a><span class="d"><i>someday</i></span></li>
      <li><a href="https://x/m/ch-1/">Chapter 1</a></li>
    </ul>"#;
    let rule = chapters_rule(DateRule::Day { selector: s(".d i"), format: s("%B %d, %Y") });
    let chapters = read_chapters(8, html, &rule).unwrap();
    assert_eq!(chapters.len(), 3);
    assert_eq!(chapters[0].title, "Chapter 2.5 - Two");
    assert_eq!(chapters[0].number, "2.5");
    assert_eq!(chapters[0].path, "/m/ch-2/");
    assert_eq!(chapters[0].uploaded, 1677974400);
    assert_eq!(chapters[0].scanlator, None);
    assert_eq!(chapters[0].source_id, 8);
    assert_eq!(chapters[1].title, "");
    assert_eq!(chapters[1].number, "");
    assert_eq!(chapters[1].uploaded, 0);
    assert_eq!(chapters[2].number, "1");
    assert_eq!(chapters[2].uploaded, 0);
}

#[test]
fn chapters_read_stamp_from_attribute() {
    let html = r#"<li><a href="/c/1">1</a><time datetime="2024-10-01T12:00:00.000Z">then</time></li>
                  <li><a>no link</a><time datetime="2024-10-01T12:00:00.000Z">then</time></li>"#;
    let rule = chapters_rule(DateRule::Stamp { selector: s("time"), attr: s("datetime") });
    assert_eq!(read_chapters(8, html, &rule).unwrap_err(), SourceError::ParseError(Cause::Path));
    let one = r#"<li><a href="/c/1">1</a><time datetime="2024-10-01T12:00:00.000Z">then</time></li>"#;
    let chapters = read_chapters(8, one, &rule).unwrap();
    assert_eq!(chapters[0].uploaded, 1727784000);
    assert_eq!(chapters[0].title, "1");
    let mismatch = chapters_from(1, &vec![vec![]], &vec![], &vec![], &rule);
    assert_eq!(mismatch.unwrap_err(), SourceError::ParseError(Cause::Shape));
}

#[test]
fn uploaded_is_zero_when_unreadable() {
    let day = DateRule::Day { selector: s("x"), format: s("%Y-%m-%d") };
    let stamp = DateRule::Stamp { selector: s("x"), attr: s("y") };
    assert_eq!(read_uploaded(&None, &day), 0);
    assert_eq!(read_uploaded(&None, &stamp), 0);
    assert_eq!(read_uploaded(&Some(s("garbage")), &day), 0);
    assert_eq!(read_uploaded(&Some(s("garbage")), &stamp), 0);
    assert_eq!(read_uploaded(&Some(s(" 1970-01-02 ")), &day), 86400);
    assert_eq!(read_uploaded(&Some(s("1970-01-01T00:01:00+00:00")), &stamp), 60);
}

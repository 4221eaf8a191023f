//! The sources built on the Madara theme: what they are asked, and how
//! their pages are written.

use crate::engine::{
    chapters_in, detail_in, gives, listing_in, pages_in, read_chapters, read_detail,
    read_listing, read_pages, AttrRule, AttrRuleView, ChaptersRule, ChaptersRuleView, DateRule,
    DateRuleView, DetailRule, DetailRuleView, ListingRule, ListingRuleView, PagesRule,
    PagesRuleView,
};
use crate::error::{Cause, SourceError};
use crate::markup::matched;
use crate::model::{ChapterInfo, MangaInfo};
use crate::request::{get, page_index, page_text, plain_get, Header, Method, Request, RequestView};
use crate::text::{decimal_text, glue};
use vstd::prelude::*;

verus! {

/// The selector of the entries of a listing.
pub const LISTED: &'static str = "div.page-item-detail";

/// The selector of the entries of a search.
pub const FOUND: &'static str = "div.c-tabs-item > div";

/// The format in which a chapter writes its day.
pub const DAY_FORMAT: &'static str = "%B %d, %Y";

/// A request as a page of the site sends it: posted, naming the site as
/// its referer.
pub open spec fn posted(address: Seq<char>, site: Seq<char>) -> RequestView {
    RequestView {
        method: Method::Post,
        url: address,
        headers: seq![("Referer"@, site), ("X-Requested-With"@, "XMLHttpRequest"@)],
    }
}

/// The address of one page of the listing in the order `by`.
pub open spec fn ordered_url(site: Seq<char>, page: i64, by: Seq<char>) -> Seq<char> {
    site + "/manga/page/"@ + decimal_text(page_index(page)) + "/?m_orderby="@ + by
}

/// The address of one page of the search for `query`.
pub open spec fn search_url(site: Seq<char>, page: i64, query: Seq<char>) -> Seq<char> {
    site + "/page/"@ + decimal_text(page_index(page)) + "/?s="@ + query + "&post_type=wp-manga"@
}

/// How the sites write a listing whose entries `item` matches.
pub open spec fn listing_rule(site: Seq<char>, item: Seq<char>) -> ListingRuleView {
    ListingRuleView {
        item,
        cover: AttrRuleView { selector: "img"@, attr: "src"@ },
        path: AttrRuleView { selector: ".post-title a"@, attr: "href"@ },
        title: ".post-title a"@,
        base: Some(site),
    }
}

/// How the sites write the page of an entry.
pub open spec fn detail_rule() -> DetailRuleView {
    DetailRuleView {
        title: ".post-title h1"@,
        cover: AttrRuleView { selector: ".summary_image img"@, attr: "src"@ },
        authors: ".author-content a"@,
        genres: ".genres-content a"@,
        status: ".post-status .summary-content"@,
        description: ".summary__content p"@,
    }
}

/// How the sites write the chapters of an entry.
pub open spec fn chapters_rule(site: Seq<char>) -> ChaptersRuleView {
    ChaptersRuleView {
        item: "li.wp-manga-chapter"@,
        link: AttrRuleView { selector: "a"@, attr: "href"@ },
        title: "a"@,
        date: DateRuleView::Day { selector: ".chapter-release-date i"@, format: DAY_FORMAT@ },
        base: Some(site),
    }
}

/// How the sites write the pages of a chapter.
pub open spec fn pages_rule() -> PagesRuleView {
    PagesRuleView {
        image: AttrRuleView { selector: ".page-break img"@, attr: "src"@ },
        rewrite: None,
    }
}

/// A request as a page of the site sends it.
pub fn post(address: String, site: &str) -> (out: Request)
    ensures
        out.deep_view() == posted(address@, site@),
{
    let mut headers: Vec<Header> = Vec::new();
    headers.push(Header { name: "Referer".to_owned(), value: site.to_owned() });
    headers.push(
        Header { name: "X-Requested-With".to_owned(), value: "XMLHttpRequest".to_owned() },
    );
    proof {
        assert(headers.deep_view() =~= posted(address@, site@).headers);
    }
    Request { method: Method::Post, url: address, headers }
}

/// The request for one page of the listing in the order `by`.
pub fn ordered_request(site: &str, page: i64, by: &str) -> (out: Request)
    ensures
        out.deep_view() == posted(ordered_url(site@, page, by@), site@),
{
    let mut address = glue(site, "/manga/page/");
    address.append(page_text(page).as_str());
    address.append("/?m_orderby=");
    address.append(by);
    post(address, site)
}

/// The request for one page of the most read entries.
pub fn popular_request(site: &str, page: i64) -> (out: Request)
    ensures
        out.deep_view() == posted(ordered_url(site@, page, "trending"@), site@),
{
    ordered_request(site, page, "trending")
}

/// The request for one page of the newest entries.
pub fn latest_request(site: &str, page: i64) -> (out: Request)
    ensures
        out.deep_view() == posted(ordered_url(site@, page, "latest"@), site@),
{
    ordered_request(site, page, "latest")
}

/// The request for one page of the search for `query`.
pub fn search_request(site: &str, page: i64, query: &str) -> (out: Request)
    ensures
        out.deep_view() == posted(search_url(site@, page, query@), site@),
{
    let mut address = glue(site, "/page/");
    address.append(page_text(page).as_str());
    address.append("/?s=");
    address.append(query);
    address.append("&post_type=wp-manga");
    post(address, site)
}

/// The request for the page at `path`, which holds an entry with its
/// chapters, or the pages of a chapter.
pub fn page_request(site: &str, path: &str) -> (out: Request)
    ensures
        out.deep_view() == plain_get(site@ + path@),
{
    get(glue(site, path))
}

/// The entries that a listing holds whose entries `selector` matches.
pub fn parse_manga_list(site: &str, source_id: i64, body: &str, selector: &str) -> (out: Result<
    Vec<MangaInfo>,
    SourceError,
>)
    ensures
        gives(out, listing_in(source_id, body@, listing_rule(site@, selector@))),
        out matches Ok(list) ==> list.len() == matched(body@, selector@),
        out != Err::<Vec<MangaInfo>, SourceError>(SourceError::ParseError(Cause::Shape)),
{
    let rule = ListingRule {
        item: selector.to_owned(),
        cover: AttrRule { selector: "img".to_owned(), attr: "src".to_owned() },
        path: AttrRule { selector: ".post-title a".to_owned(), attr: "href".to_owned() },
        title: ".post-title a".to_owned(),
        base: Some(site.to_owned()),
    };
    read_listing(source_id, body, &rule)
}

/// The entry at `path` that its page holds.
pub fn parse_manga_detail(path: String, source_id: i64, body: &str) -> (out: Result<
    MangaInfo,
    SourceError,
>)
    ensures
        gives(out, detail_in(source_id, path@, body@, detail_rule())),
{
    let rule = DetailRule {
        title: ".post-title h1".to_owned(),
        cover: AttrRule { selector: ".summary_image img".to_owned(), attr: "src".to_owned() },
        authors: ".author-content a".to_owned(),
        genres: ".genres-content a".to_owned(),
        status: ".post-status .summary-content".to_owned(),
        description: ".summary__content p".to_owned(),
    };
    read_detail(source_id, path, body, &rule)
}

/// The chapters that the page of an entry holds.
pub fn parse_chapters(site: &str, source_id: i64, body: &str) -> (out: Result<
    Vec<ChapterInfo>,
    SourceError,
>)
    ensures
        gives(out, chapters_in(source_id, body@, chapters_rule(site@))),
        out matches Ok(list) ==> list.len() == matched(body@, "li.wp-manga-chapter"@),
        out != Err::<Vec<ChapterInfo>, SourceError>(SourceError::ParseError(Cause::Shape)),
{
    let rule = ChaptersRule {
        item: "li.wp-manga-chapter".to_owned(),
        link: AttrRule { selector: "a".to_owned(), attr: "href".to_owned() },
        title: "a".to_owned(),
        date: DateRule::Day {
            selector: ".chapter-release-date i".to_owned(),
            format: DAY_FORMAT.to_owned(),
        },
        base: Some(site.to_owned()),
    };
    read_chapters(source_id, body, &rule)
}

/// The pages that the page of a chapter holds.
pub fn parse_pages(body: &str) -> (out: Result<Vec<String>, SourceError>)
    ensures
        gives(out, pages_in(body@, pages_rule())),
        out matches Ok(pages) ==> pages.len() == matched(body@, ".page-break img"@),
        out != Err::<Vec<String>, SourceError>(SourceError::ParseError(Cause::Shape)),
{
    let rule = PagesRule {
        image: AttrRule { selector: ".page-break img".to_owned(), attr: "src".to_owned() },
        rewrite: None,
    };
    read_pages(body, &rule)
}

} // verus!

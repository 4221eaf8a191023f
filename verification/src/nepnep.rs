//! The sources of the WeebCentral kind: what they are asked, and how their
//! pages are written.

use crate::engine::{
    chapters_in, detail_in, gives, listing_in, pages_in, read_chapters, read_detail,
    read_listing, read_pages, AttrRule, AttrRuleView, ChaptersRule, ChaptersRuleView, DateRule,
    DateRuleView, DetailRule, DetailRuleView, ListingRule, ListingRuleView, PagesRule,
    PagesRuleView,
};
use crate::error::{Cause, SourceError};
use crate::input::{
    blank_select, blank_text, make_select, make_text, value_at, views, Input, InputType,
    InputTypeView, InputView,
};
use crate::markup::matched;
use crate::model::{ChapterInfo, MangaInfo};
use crate::request::{clamp_page, get, page_index, plain_get, Request};
use crate::text::{
    decimal, decimal_text, glue, join, joined, replace, replaced, same_text, split, split_on,
};
use vstd::prelude::*;

verus! {

/// What a search asks: a text in the title, an ordering and its direction.
#[derive(Debug)]
pub struct Asked {
    pub text: String,
    pub sort: String,
    pub order: String,
}

/// What an `Asked` holds.
pub struct AskedView {
    pub text: Seq<char>,
    pub sort: Seq<char>,
    pub order: Seq<char>,
}

impl DeepView for Asked {
    type V = AskedView;

    open spec fn deep_view(&self) -> AskedView {
        AskedView { text: self.text@, sort: self.sort@, order: self.order@ }
    }
}

/// The filters a search understands: a text in the title, the ordering and
/// its direction.
pub open spec fn filters() -> Seq<InputView> {
    seq![
        blank_text("Title"@),
        blank_select(
            "Sort"@,
            seq![
                "Best Match"@,
                "Alphabet"@,
                "Popularity"@,
                "Subscribers"@,
                "Recently Added"@,
                "Latest Updates"@,
            ],
        ),
        blank_select("Order"@, seq!["Descending"@, "Ascending"@]),
    ]
}

/// The search for `text` by the best match, best first.
pub open spec fn matching(text: Seq<char>) -> AskedView {
    AskedView { text, sort: "Best Match"@, order: "Descending"@ }
}

/// The search for everything in the ordering `sort`, the first first.
pub open spec fn sorted_by(sort: Seq<char>) -> AskedView {
    AskedView { text: Seq::empty(), sort, order: "Descending"@ }
}

/// The text that a selection chooses: the value its state names, or its
/// first value while nothing is chosen. `None` where that is no text.
pub open spec fn chosen_text(values: Seq<InputTypeView>, state: Option<i64>) -> Option<Seq<char>> {
    match value_at(values, state.unwrap_or(0)) {
        Some(InputTypeView::Text(value)) => Some(value),
        _ => None,
    }
}

/// The search after one filter: the title filter with a state sets the
/// text, the sort and order filters set what they choose. A filter of
/// another name, and a choice that names no text, change nothing.
pub open spec fn with_filter(asked: AskedView, filter: InputView) -> AskedView {
    match filter {
        InputView::Text { name, state } => if name == "Title"@ && state is Some {
            AskedView { text: state->0, sort: asked.sort, order: asked.order }
        } else {
            asked
        },
        InputView::Select { name, values, state } => if name == "Sort"@ && chosen_text(
            values,
            state,
        ) is Some {
            AskedView { text: asked.text, sort: chosen_text(values, state)->0, order: asked.order }
        } else if name == "Order"@ && chosen_text(values, state) is Some {
            AskedView { text: asked.text, sort: asked.sort, order: chosen_text(values, state)->0 }
        } else {
            asked
        },
        _ => asked,
    }
}

/// The search after the filters, one after the other.
pub open spec fn with_filters(asked: AskedView, filters: Seq<InputView>) -> AskedView
    decreases filters.len(),
{
    if filters.len() == 0 {
        asked
    } else {
        with_filter(with_filters(asked, filters.drop_last()), filters.last())
    }
}

/// What a search asks. Filters come before a free text: where both are
/// given, the text is not used. With neither there is nothing to ask.
pub open spec fn search_asked(query: Option<Seq<char>>, filters: Option<Seq<InputView>>) -> Result<
    AskedView,
    SourceError,
> {
    match filters {
        Some(list) => Ok(with_filters(matching(Seq::empty()), list)),
        None => match query {
            Some(text) => Ok(matching(text)),
            None => Err(SourceError::InvalidArgument),
        },
    }
}

/// The address of one page of a search, thirty-two entries to the page.
pub open spec fn search_url(site: Seq<char>, page: i64, asked: AskedView) -> Seq<char> {
    site + "/search/data?limit=32&offset="@ + decimal_text(((page_index(page) - 1) * 32) as nat)
        + "&text="@ + asked.text + "&sort="@ + replaced(asked.sort, " "@, "+"@) + "&order="@
        + asked.order + "&official=Any&anime=Any&adult=Any&display_mode=Full+Display"@
}

/// The part of a path that names the series: its first two parts.
pub open spec fn series_root(path: Seq<char>) -> Seq<char> {
    let parts = split(path, '/');
    if parts.len() >= 3 {
        joined(parts.take(3), "/"@)
    } else {
        path
    }
}

/// The address of the chapters of the series at `path`.
pub open spec fn chapters_url(site: Seq<char>, path: Seq<char>) -> Seq<char> {
    site + series_root(path) + "/full-chapter-list"@
}

/// The address of the pages of the chapter at `path`.
pub open spec fn pages_url(site: Seq<char>, path: Seq<char>) -> Seq<char> {
    site + path + "/images?is_prev=False&current_page=1&reading_style=long_strip"@
}

/// How the sites write a listing.
pub open spec fn listing_rule(site: Seq<char>) -> ListingRuleView {
    ListingRuleView {
        item: "article"@,
        cover: AttrRuleView { selector: "picture img"@, attr: "src"@ },
        path: AttrRuleView { selector: "a"@, attr: "href"@ },
        title: "a.link-hover"@,
        base: Some(site),
    }
}

/// How the sites write the page of a series.
pub open spec fn detail_rule() -> DetailRuleView {
    DetailRuleView {
        title: "h1"@,
        cover: AttrRuleView { selector: "picture img"@, attr: "src"@ },
        authors: "a[href*=\"author=\"]"@,
        genres: "a[href*=\"included_tag=\"]"@,
        status: "a[href*=\"included_status=\"]"@,
        description: "p.whitespace-pre-wrap"@,
    }
}

/// How the sites write the chapters of a series.
pub open spec fn chapters_rule(site: Seq<char>) -> ChaptersRuleView {
    ChaptersRuleView {
        item: "div[x-data]"@,
        link: AttrRuleView { selector: "a"@, attr: "href"@ },
        title: "span.grow > span"@,
        date: DateRuleView::Stamp { selector: "time"@, attr: "datetime"@ },
        base: Some(site),
    }
}

/// How the sites write the pages of a chapter.
pub open spec fn pages_rule() -> PagesRuleView {
    PagesRuleView { image: AttrRuleView { selector: "section img"@, attr: "src"@ }, rewrite: None }
}

/// The filters a search understands.
pub fn filter_list() -> (out: Vec<Input>)
    ensures
        out.deep_view() == filters(),
{
    let sorts = vec![
        "Best Match",
        "Alphabet",
        "Popularity",
        "Subscribers",
        "Recently Added",
        "Latest Updates",
    ];
    let orders = vec!["Descending", "Ascending"];
    proof {
        assert(views(sorts@) =~= seq![
            "Best Match"@,
            "Alphabet"@,
            "Popularity"@,
            "Subscribers"@,
            "Recently Added"@,
            "Latest Updates"@,
        ]);
        assert(views(orders@) =~= seq!["Descending"@, "Ascending"@]);
    }
    let mut out: Vec<Input> = Vec::new();
    out.push(make_text("Title"));
    out.push(make_select("Sort", sorts));
    out.push(make_select("Order", orders));
    proof {
        assert(out.deep_view() =~= filters());
    }
    out
}

/// The text that a selection chooses.
fn pick_text(values: &Vec<InputType>, state: &Option<i64>) -> (out: Option<String>)
    ensures
        out.deep_view() == chosen_text(values.deep_view(), *state),
{
    let index = match state {
        Some(i) => *i,
        None => 0,
    };
    if index < 0 || index as u64 >= values.len() as u64 {
        None
    } else {
        match &values[index as usize] {
            InputType::Text(value) => Some(value.clone()),
            _ => None,
        }
    }
}

impl Asked {
    /// Applies one filter to the search.
    pub fn apply_filter(&mut self, filter: &Input)
        ensures
            final(self).deep_view() == with_filter(old(self).deep_view(), filter.deep_view()),
    {
        match filter {
            Input::Text { name, state } => {
                if same_text(name.as_str(), "Title") {
                    match state {
                        Some(text) => {
                            self.text = text.clone();
                        },
                        None => {},
                    }
                }
            },
            Input::Select { name, values, state } => {
                if same_text(name.as_str(), "Sort") {
                    match pick_text(values, state) {
                        Some(sort) => {
                            self.sort = sort;
                        },
                        None => {
                            proof {
                                reveal_strlit("Sort");
                                reveal_strlit("Order");
                            }
                        },
                    }
                } else if same_text(name.as_str(), "Order") {
                    match pick_text(values, state) {
                        Some(order) => {
                            self.order = order;
                        },
                        None => {},
                    }
                }
            },
            _ => {},
        }
    }
}

/// What a search asks.
pub fn ask(query: Option<String>, filters: Option<Vec<Input>>) -> (out: Result<Asked, SourceError>)
    ensures
        gives(out, search_asked(query.deep_view(), filters.deep_view())),
        out is Err <==> (query is None && filters is None),
{
    match filters {
        Some(list) => {
            let ghost all = list.deep_view();
            let mut asked = Asked {
                text: String::new(),
                sort: "Best Match".to_owned(),
                order: "Descending".to_owned(),
            };
            let mut i: usize = 0;
            proof {
                assert(all.take(0) =~= Seq::empty());
            }
            while i < list.len()
                invariant
                    0 <= i <= list.len(),
                    all == list.deep_view(),
                    asked.deep_view() == with_filters(matching(Seq::empty()), all.take(i as int)),
                decreases list.len() - i,
            {
                proof {
                    assert(all.take(i as int + 1).drop_last() =~= all.take(i as int));
                    assert(all.take(i as int + 1).last() == list@[i as int].deep_view());
                }
                asked.apply_filter(&list[i]);
                i += 1;
            }
            proof {
                assert(all.take(list.len() as int) =~= all);
            }
            Ok(asked)
        },
        None => match query {
            Some(text) => Ok(
                Asked { text, sort: "Best Match".to_owned(), order: "Descending".to_owned() },
            ),
            None => Err(SourceError::InvalidArgument),
        },
    }
}

/// The request for one page of a search.
pub fn list_request(site: &str, page: i64, asked: &Asked) -> (out: Request)
    ensures
        out.deep_view() == plain_get(search_url(site@, page, asked.deep_view())),
{
    let offset: u128 = (clamp_page(page) as u128 - 1) * 32;
    let mut address = glue(site, "/search/data?limit=32&offset=");
    address.append(decimal(offset).as_str());
    address.append("&text=");
    address.append(asked.text.as_str());
    address.append("&sort=");
    address.append(replace(asked.sort.as_str(), " ", "+").as_str());
    address.append("&order=");
    address.append(asked.order.as_str());
    address.append("&official=Any&anime=Any&adult=Any&display_mode=Full+Display");
    get(address)
}

/// The request for one page of the most read series.
pub fn popular_request(site: &str, page: i64) -> (out: Request)
    ensures
        out.deep_view() == plain_get(search_url(site@, page, sorted_by("Popularity"@))),
{
    let asked = Asked {
        text: String::new(),
        sort: "Popularity".to_owned(),
        order: "Descending".to_owned(),
    };
    list_request(site, page, &asked)
}

/// The request for one page of the series updated last.
pub fn latest_request(site: &str, page: i64) -> (out: Request)
    ensures
        out.deep_view() == plain_get(search_url(site@, page, sorted_by("Latest Updates"@))),
{
    let asked = Asked {
        text: String::new(),
        sort: "Latest Updates".to_owned(),
        order: "Descending".to_owned(),
    };
    list_request(site, page, &asked)
}

/// The request for one page of a search, by filters or else by a free
/// text. With neither, the arguments are invalid.
pub fn search_request(site: &str, page: i64, query: Option<String>, filters: Option<Vec<Input>>) -> (out:
    Result<Request, SourceError>)
    ensures
        match search_asked(query.deep_view(), filters.deep_view()) {
            Ok(asked) => out is Ok && out->Ok_0.deep_view() == plain_get(
                search_url(site@, page, asked),
            ),
            Err(e) => out == Err::<Request, SourceError>(e),
        },
        out == Err::<Request, SourceError>(SourceError::InvalidArgument) <==> (query is None
            && filters is None),
{
    match ask(query, filters) {
        Ok(asked) => Ok(list_request(site, page, &asked)),
        Err(e) => Err(e),
    }
}

/// The request for the page of the series at `path`.
pub fn detail_request(site: &str, path: &str) -> (out: Request)
    ensures
        out.deep_view() == plain_get(site@ + path@),
{
    get(glue(site, path))
}

/// The request for the chapters of the series at `path`.
pub fn chapters_request(site: &str, path: &str) -> (out: Request)
    ensures
        out.deep_view() == plain_get(chapters_url(site@, path@)),
{
    let parts = split_on(path, '/');
    let mut address = site.to_owned();
    if parts.len() >= 3 {
        let mut root: Vec<String> = Vec::new();
        root.push(parts[0].clone());
        root.push(parts[1].clone());
        root.push(parts[2].clone());
        proof {
            assert(root.deep_view() =~= parts.deep_view().take(3));
        }
        address.append(join(&root, "/").as_str());
    } else {
        address.append(path);
    }
    address.append("/full-chapter-list");
    get(address)
}

/// The request for the pages of the chapter at `path`.
pub fn pages_request(site: &str, path: &str) -> (out: Request)
    ensures
        out.deep_view() == plain_get(pages_url(site@, path@)),
{
    let mut address = glue(site, path);
    address.append("/images?is_prev=False&current_page=1&reading_style=long_strip");
    get(address)
}

/// The series that a page of a search holds.
pub fn parse_manga_list(source_id: i64, site: &str, body: &str) -> (out: Result<
    Vec<MangaInfo>,
    SourceError,
>)
    ensures
        gives(out, listing_in(source_id, body@, listing_rule(site@))),
        out matches Ok(list) ==> list.len() == matched(body@, "article"@),
        out != Err::<Vec<MangaInfo>, SourceError>(SourceError::ParseError(Cause::Shape)),
{
    let rule = ListingRule {
        item: "article".to_owned(),
        cover: AttrRule { selector: "picture img".to_owned(), attr: "src".to_owned() },
        path: AttrRule { selector: "a".to_owned(), attr: "href".to_owned() },
        title: "a.link-hover".to_owned(),
        base: Some(site.to_owned()),
    };
    read_listing(source_id, body, &rule)
}

/// The series at `path` that its page holds.
pub fn parse_manga_detail(source_id: i64, path: String, body: &str) -> (out: Result<
    MangaInfo,
    SourceError,
>)
    ensures
        gives(out, detail_in(source_id, path@, body@, detail_rule())),
{
    let rule = DetailRule {
        title: "h1".to_owned(),
        cover: AttrRule { selector: "picture img".to_owned(), attr: "src".to_owned() },
        authors: "a[href*=\"author=\"]".to_owned(),
        genres: "a[href*=\"included_tag=\"]".to_owned(),
        status: "a[href*=\"included_status=\"]".to_owned(),
        description: "p.whitespace-pre-wrap".to_owned(),
    };
    read_detail(source_id, path, body, &rule)
}

/// The chapters that a chapter list holds.
pub fn parse_chapters(source_id: i64, site: &str, body: &str) -> (out: Result<
    Vec<ChapterInfo>,
    SourceError,
>)
    ensures
        gives(out, chapters_in(source_id, body@, chapters_rule(site@))),
        out matches Ok(list) ==> list.len() == matched(body@, "div[x-data]"@),
        out != Err::<Vec<ChapterInfo>, SourceError>(SourceError::ParseError(Cause::Shape)),
{
    let rule = ChaptersRule {
        item: "div[x-data]".to_owned(),
        link: AttrRule { selector: "a".to_owned(), attr: "href".to_owned() },
        title: "span.grow > span".to_owned(),
        date: DateRule::Stamp { selector: "time".to_owned(), attr: "datetime".to_owned() },
        base: Some(site.to_owned()),
    };
    read_chapters(source_id, body, &rule)
}

/// The pages that the images of a chapter hold.
pub fn parse_pages(body: &str) -> (out: Result<Vec<String>, SourceError>)
    ensures
        gives(out, pages_in(body@, pages_rule())),
        out matches Ok(pages) ==> pages.len() == matched(body@, "section img"@),
        out != Err::<Vec<String>, SourceError>(SourceError::ParseError(Cause::Shape)),
{
    let rule = PagesRule {
        image: AttrRule { selector: "section img".to_owned(), attr: "src".to_owned() },
        rewrite: None,
    };
    read_pages(body, &rule)
}

/// Two pages that follow each other ask for windows that follow each
/// other: the next page begins where the page ends, so no entry is asked
/// for twice.
pub proof fn lemma_pages_follow(page: i64)
    requires
        1 <= page < i64::MAX,
    ensures
        (page_index((page + 1) as i64) - 1) * 32 == (page_index(page) - 1) * 32 + 32,
{
}

} // verus!

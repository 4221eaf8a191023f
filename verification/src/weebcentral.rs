//! The source WeebCentral.

use crate::engine::{chapters_in, detail_in, gives, listing_in, pages_in};
use crate::error::{Cause, SourceError};
use crate::input::{clone_inputs, merge_preferences, merged, Input, InputView};
use crate::markup::matched;
use crate::model::{ChapterInfo, Lang, LangView, MangaInfo, SourceInfo, SourceInfoView};
use crate::nepnep::{
    chapters_rule, chapters_url, detail_rule, filters, listing_rule, pages_rule, pages_url,
    search_asked, search_url, sorted_by,
};
use crate::request::{plain_get, Request};
use vstd::prelude::*;

verus! {

/// The number of the source.
pub const ID: i64 = 3;

/// The name of the source.
pub const NAME: &'static str = "WeebCentral";

/// The address of the source.
pub const URL: &'static str = "https://weebcentral.com";

/// The version of the source's rules.
pub const VERSION: &'static str = "0.1.0";

/// The source with its stored preferences.
#[derive(Debug)]
pub struct Weebcentral {
    preferences: Vec<Input>,
}

impl Weebcentral {
    /// The stored preferences.
    pub closed spec fn stored(&self) -> Seq<InputView> {
        self.preferences.deep_view()
    }

    /// A new instance; the source has no preferences.
    pub fn new() -> (out: Weebcentral)
        ensures
            out.stored() == Seq::<InputView>::empty(),
    {
        let out = Weebcentral { preferences: Vec::new() };
        proof {
            assert(out.preferences.deep_view() =~= Seq::empty());
        }
        out
    }

    /// Merges `preferences` into the stored ones, by name and kind.
    pub fn set_preferences(&mut self, preferences: Vec<Input>)
        ensures
            final(self).stored() == merged(old(self).stored(), preferences.deep_view()),
    {
        merge_preferences(&mut self.preferences, preferences);
    }

    /// The stored preferences.
    pub fn get_preferences(&self) -> (out: Vec<Input>)
        ensures
            out.deep_view() == self.stored(),
    {
        clone_inputs(&self.preferences)
    }

    /// The filters a search understands.
    pub fn filter_list(&self) -> (out: Vec<Input>)
        ensures
            out.deep_view() == filters(),
    {
        crate::nepnep::filter_list()
    }

    /// What the source is.
    pub fn get_source_info(&self) -> (out: SourceInfo)
        ensures
            out.deep_view() == (SourceInfoView {
                id: ID,
                name: NAME@,
                url: URL@,
                version: VERSION@,
                icon: "https://weebcentral.com/static/images/144.png"@,
                languages: LangView::Single("en"@),
                nsfw: false,
            }),
    {
        SourceInfo {
            id: ID,
            name: NAME.to_owned(),
            url: URL.to_owned(),
            version: VERSION,
            icon: "https://weebcentral.com/static/images/144.png",
            languages: Lang::Single("en".to_owned()),
            nsfw: false,
        }
    }

    /// The request for one page of the most read series.
    pub fn popular_request(&self, page: i64) -> (out: Request)
        ensures
            out.deep_view() == plain_get(search_url(URL@, page, sorted_by("Popularity"@))),
    {
        crate::nepnep::popular_request(URL, page)
    }

    /// The request for one page of the series updated last.
    pub fn latest_request(&self, page: i64) -> (out: Request)
        ensures
            out.deep_view() == plain_get(search_url(URL@, page, sorted_by("Latest Updates"@))),
    {
        crate::nepnep::latest_request(URL, page)
    }

    /// The request for one page of a search, by filters or else by a free
    /// text. With neither, the arguments are invalid.
    pub fn search_request(&self, page: i64, query: Option<String>, filters: Option<Vec<Input>>) -> (out:
        Result<Request, SourceError>)
        ensures
            match search_asked(query.deep_view(), filters.deep_view()) {
                Ok(asked) => out is Ok && out->Ok_0.deep_view() == plain_get(
                    search_url(URL@, page, asked),
                ),
                Err(e) => out == Err::<Request, SourceError>(e),
            },
            out == Err::<Request, SourceError>(SourceError::InvalidArgument) <==> (query is None
                && filters is None),
    {
        crate::nepnep::search_request(URL, page, query, filters)
    }

    /// The request for the page of the series at `path`.
    pub fn detail_request(&self, path: &str) -> (out: Request)
        ensures
            out.deep_view() == plain_get(URL@ + path@),
    {
        crate::nepnep::detail_request(URL, path)
    }

    /// The request for the chapters of the series at `path`.
    pub fn chapters_request(&self, path: &str) -> (out: Request)
        ensures
            out.deep_view() == plain_get(chapters_url(URL@, path@)),
    {
        crate::nepnep::chapters_request(URL, path)
    }

    /// The request for the pages of the chapter at `path`.
    pub fn pages_request(&self, path: &str) -> (out: Request)
        ensures
            out.deep_view() == plain_get(pages_url(URL@, path@)),
    {
        crate::nepnep::pages_request(URL, path)
    }

    /// The series that a page of a search holds.
    pub fn parse_manga_list(&self, body: &str) -> (out: Result<Vec<MangaInfo>, SourceError>)
        ensures
            gives(out, listing_in(ID, body@, listing_rule(URL@))),
            out matches Ok(list) ==> list.len() == matched(body@, "article"@),
            out != Err::<Vec<MangaInfo>, SourceError>(SourceError::ParseError(Cause::Shape)),
    {
        crate::nepnep::parse_manga_list(ID, URL, body)
    }

    /// The series at `path` that its page holds.
    pub fn parse_manga_detail(&self, path: String, body: &str) -> (out: Result<
        MangaInfo,
        SourceError,
    >)
        ensures
            gives(out, detail_in(ID, path@, body@, detail_rule())),
    {
        crate::nepnep::parse_manga_detail(ID, path, body)
    }

    /// The chapters that a chapter list holds.
    pub fn parse_chapters(&self, body: &str) -> (out: Result<Vec<ChapterInfo>, SourceError>)
        ensures
            gives(out, chapters_in(ID, body@, chapters_rule(URL@))),
            out matches Ok(list) ==> list.len() == matched(body@, "div[x-data]"@),
            out != Err::<Vec<ChapterInfo>, SourceError>(SourceError::ParseError(Cause::Shape)),
    {
        crate::nepnep::parse_chapters(ID, URL, body)
    }

    /// The pages that the images of a chapter hold.
    pub fn parse_pages(&self, body: &str) -> (out: Result<Vec<String>, SourceError>)
        ensures
            gives(out, pages_in(body@, pages_rule())),
            out matches Ok(pages) ==> pages.len() == matched(body@, "section img"@),
            out != Err::<Vec<String>, SourceError>(SourceError::ParseError(Cause::Shape)),
    {
        crate::nepnep::parse_pages(body)
    }
}

} // verus!

//! The source 365Manga, a site on the Madara theme.

use crate::engine::{chapters_in, detail_in, gives, listing_in, pages_in};
use crate::error::{Cause, SourceError};
use crate::input::{clone_inputs, merge_preferences, merged, Input, InputView};
use crate::madara::{
    chapters_rule, detail_rule, latest_request, listing_rule, ordered_url, page_request,
    pages_rule, parse_chapters, parse_manga_detail, parse_manga_list, parse_pages,
    popular_request, posted, search_request, search_url, FOUND, LISTED,
};
use crate::markup::matched;
use crate::model::{ChapterInfo, Lang, LangView, MangaInfo, SourceInfo, SourceInfoView};
use crate::request::{plain_get, Request};
use vstd::prelude::*;

verus! {

/// The number of the source.
pub const ID: i64 = 17;

/// The name of the source.
pub const NAME: &'static str = "365Manga";

/// The address of the source.
pub const URL: &'static str = "https://harimanga.com";

/// The version of the source's rules.
pub const VERSION: &'static str = "0.1.0";

/// The source with its stored preferences.
#[derive(Debug)]
pub struct ThreeSixtyFiveManga {
    preferences: Vec<Input>,
}

impl ThreeSixtyFiveManga {
    /// The stored preferences.
    pub closed spec fn stored(&self) -> Seq<InputView> {
        self.preferences.deep_view()
    }

    /// A new instance; the source has no preferences.
    pub fn new() -> (out: ThreeSixtyFiveManga)
        ensures
            out.stored() == Seq::<InputView>::empty(),
    {
        let out = ThreeSixtyFiveManga { preferences: Vec::new() };
        proof {
            assert(out.preferences.deep_view() =~= Seq::empty());
        }
        out
    }

    /// Merges `preferences` into the stored ones, by name and kind.
    pub fn set_preferences(&mut self, preferences: Vec<Input>)
        ensures
            final(self).stored() == merged(old(self).stored(), preferences.deep_view()),
    {
        merge_preferences(&mut self.preferences, preferences);
    }

    /// The stored preferences.
    pub fn get_preferences(&self) -> (out: Vec<Input>)
        ensures
            out.deep_view() == self.stored(),
    {
        clone_inputs(&self.preferences)
    }

    /// The filters a search understands: none.
    pub fn filter_list(&self) -> (out: Vec<Input>)
        ensures
            out.deep_view() == Seq::<InputView>::empty(),
    {
        let out: Vec<Input> = Vec::new();
        proof {
            assert(out.deep_view() =~= Seq::empty());
        }
        out
    }

    /// What the source is.
    pub fn get_source_info(&self) -> (out: SourceInfo)
        ensures
            out.deep_view() == (SourceInfoView {
                id: ID,
                name: NAME@,
                url: URL@,
                version: VERSION@,
                icon: "https://i.imgur.com/q1r31vg.png"@,
                languages: LangView::Single("en"@),
                nsfw: false,
            }),
    {
        SourceInfo {
            id: ID,
            name: NAME.to_owned(),
            url: URL.to_owned(),
            version: VERSION,
            icon: "https://i.imgur.com/q1r31vg.png",
            languages: Lang::Single("en".to_owned()),
            nsfw: false,
        }
    }

    /// The request for one page of the most read entries.
    pub fn popular_request(&self, page: i64) -> (out: Request)
        ensures
            out.deep_view() == posted(ordered_url(URL@, page, "trending"@), URL@),
    {
        popular_request(URL, page)
    }

    /// The request for one page of the newest entries.
    pub fn latest_request(&self, page: i64) -> (out: Request)
        ensures
            out.deep_view() == posted(ordered_url(URL@, page, "latest"@), URL@),
    {
        latest_request(URL, page)
    }

    /// The request for one page of a search by a free text. The source
    /// has no filters: without a text the arguments are invalid, whatever
    /// filters are given.
    pub fn search_request(&self, page: i64, query: Option<String>, filters: Option<Vec<Input>>) -> (out:
        Result<Request, SourceError>)
        ensures
            match query {
                Some(text) => out is Ok && out->Ok_0.deep_view() == posted(
                    search_url(URL@, page, text@),
                    URL@,
                ),
                None => out == Err::<Request, SourceError>(SourceError::InvalidArgument),
            },
    {
        match query {
            Some(text) => Ok(search_request(URL, page, text.as_str())),
            None => Err(SourceError::InvalidArgument),
        }
    }

    /// The request for the page at `path`: that of an entry, with its
    /// chapters, or that of a chapter, with its pages.
    pub fn page_request(&self, path: &str) -> (out: Request)
        ensures
            out.deep_view() == plain_get(URL@ + path@),
    {
        page_request(URL, path)
    }

    /// The entries that a page of a listing holds.
    pub fn parse_manga_list(&self, body: &str) -> (out: Result<Vec<MangaInfo>, SourceError>)
        ensures
            gives(out, listing_in(ID, body@, listing_rule(URL@, LISTED@))),
            out matches Ok(list) ==> list.len() == matched(body@, LISTED@),
            out != Err::<Vec<MangaInfo>, SourceError>(SourceError::ParseError(Cause::Shape)),
    {
        parse_manga_list(URL, ID, body, LISTED)
    }

    /// The entries that a page of a search holds.
    pub fn parse_search_list(&self, body: &str) -> (out: Result<Vec<MangaInfo>, SourceError>)
        ensures
            gives(out, listing_in(ID, body@, listing_rule(URL@, FOUND@))),
            out matches Ok(list) ==> list.len() == matched(body@, FOUND@),
            out != Err::<Vec<MangaInfo>, SourceError>(SourceError::ParseError(Cause::Shape)),
    {
        parse_manga_list(URL, ID, body, FOUND)
    }

    /// The entry at `path` that its page holds.
    pub fn parse_manga_detail(&self, path: String, body: &str) -> (out: Result<
        MangaInfo,
        SourceError,
    >)
        ensures
            gives(out, detail_in(ID, path@, body@, detail_rule())),
    {
        parse_manga_detail(path, ID, body)
    }

    /// The chapters that the page of an entry holds.
    pub fn parse_chapters(&self, body: &str) -> (out: Result<Vec<ChapterInfo>, SourceError>)
        ensures
            gives(out, chapters_in(ID, body@, chapters_rule(URL@))),
            out matches Ok(list) ==> list.len() == matched(body@, "li.wp-manga-chapter"@),
            out != Err::<Vec<ChapterInfo>, SourceError>(SourceError::ParseError(Cause::Shape)),
    {
        parse_chapters(URL, ID, body)
    }

    /// The pages that the page of a chapter holds.
    pub fn parse_pages(&self, body: &str) -> (out: Result<Vec<String>, SourceError>)
        ensures
            gives(out, pages_in(body@, pages_rule())),
            out matches Ok(pages) ==> pages.len() == matched(body@, ".page-break img"@),
            out != Err::<Vec<String>, SourceError>(SourceError::ParseError(Cause::Shape)),
    {
        parse_pages(body)
    }
}

} // verus!

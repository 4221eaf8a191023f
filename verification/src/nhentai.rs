//! The source nhentai: a gallery site that is read from its pages.

use crate::clock::{parse_timestamp, timestamp_of};
use crate::engine::{
    all_texts, collect_leading_texts, collect_texts, collect_whole_text, first_present,
    first_text, gives, leading_texts, listing_in, pages_in, pick_first, pick_first_text,
    read_listing, read_pages, whole_text, AttrRule, AttrRuleView, ListingRule, ListingRuleView,
    PagesRule, PagesRuleView, Piece, PieceView, RewriteRule, RewriteRuleView,
};
use crate::error::{Cause, SourceError};
use crate::input::{
    blank_select, blank_text, clone_inputs, make_select, make_text, merge_preferences, merged,
    value_at, views, Input, InputType, InputTypeView, InputView,
};
use crate::markup::{matched, select_attrs, select_texts, selected_attrs, selected_texts};
use crate::model::{
    ChapterInfo, ChapterInfoView, Lang, LangView, MangaInfo, MangaInfoView, SourceInfo,
    SourceInfoView,
};
use crate::request::{get, page_index, page_text, plain_get, Request};
use crate::text::{
    decimal_text, glue, join, joined, lemma_decimal_text_differs, lowercased, replace, replaced,
    same_text, split, split_on, starts_with_char, trim, trimmed,
};
use vstd::prelude::*;

verus! {

/// The number of the source.
pub const ID: i64 = 6;

/// The address of the source.
pub const URL: &'static str = "https://nhentai.net";

/// The version of the source's rules.
pub const VERSION: &'static str = "0.1.0";

/// The format in which a gallery writes the time of its upload.
pub const UPLOADED_FORMAT: &'static str = "%Y-%m-%dT%H:%M:%S%.f%z";

/// The pattern that the address of a small page image follows: the number
/// of the image server, the gallery's media number, the page's number and
/// the kind of image.
pub const THUMBNAIL_PATTERN: &'static str = r"^https:\/\/t(\d*)\..+\/(\d+)\/(\d+)t.(.+)$";

/// The preference that restricts the language.
pub open spec fn language_select() -> InputView {
    blank_select("Language"@, seq!["Any"@, "English"@, "Japanese"@, "Chinese"@])
}

/// The filter that orders the results.
pub open spec fn sort_filter() -> InputView {
    blank_select("Sort"@, seq!["Popular"@, "Popular Week"@, "Popular Today"@, "Recent"@])
}

/// The preferences of a new instance: the language, and the tags to leave
/// out.
pub open spec fn default_preferences() -> Seq<InputView> {
    seq![language_select(), blank_text("Blacklist Tag"@)]
}

/// The filters a search understands.
pub open spec fn filters() -> Seq<InputView> {
    seq![
        blank_text("Tag"@),
        blank_text("Characters"@),
        blank_text("Categories"@),
        blank_text("Parodies"@),
        blank_text("Artists"@),
        blank_text("Groups"@),
        sort_filter(),
    ]
}

/// The terms that leave out the tags of a comma-separated list.
pub open spec fn blacklist_terms(list: Seq<char>) -> Seq<Seq<char>> {
    Seq::new(split(list, ',').len(), |i: int| "-tag:"@ + trimmed(split(list, ',')[i]))
}

/// The terms that a stored preference adds to every query: the chosen
/// language, unless it is "Any", and one term for each tag to leave out.
/// A language index that names no value adds nothing.
pub open spec fn preference_terms(preference: InputView) -> Seq<Seq<char>> {
    match preference {
        InputView::Select { name, values, state } => if name == "Language"@ && state is Some {
            match value_at(values, state->0) {
                Some(InputTypeView::Text(language)) => if language != "Any"@ {
                    seq!["language:"@ + lowercased(language)]
                } else {
                    Seq::empty()
                },
                _ => Seq::empty(),
            }
        } else {
            Seq::empty()
        },
        InputView::Text { name, state } => if name == "Blacklist Tag"@ && state is Some {
            blacklist_terms(state->0)
        } else {
            Seq::empty()
        },
        _ => Seq::empty(),
    }
}

/// The term for one tag of the tag filter: the tag is taken without white
/// space around it; one that then begins with `-` is left out of the
/// results, any other is asked for.
pub open spec fn tag_term(name: Seq<char>, tag: Seq<char>) -> Seq<char> {
    if trimmed(tag).len() > 0 && trimmed(tag)[0] == '-' {
        "-"@ + lowercased(name) + ":"@ + replaced(trimmed(tag), "-"@, Seq::empty())
    } else {
        lowercased(name) + ":"@ + trimmed(tag)
    }
}

/// The terms for the tags of a comma-separated list.
pub open spec fn tag_terms(name: Seq<char>, list: Seq<char>) -> Seq<Seq<char>> {
    Seq::new(split(list, ',').len(), |i: int| tag_term(name, split(list, ',')[i]))
}

/// Whether `name` is the name of one of the text filters that a search
/// understands.
pub open spec fn declared_text_filter(name: Seq<char>) -> bool {
    name == "Tag"@ || name == "Characters"@ || name == "Categories"@ || name == "Parodies"@
        || name == "Artists"@ || name == "Groups"@
}

/// The terms that one filter of a search adds: the tag filter one term for
/// each tag, any other text filter that the search understands one term
/// under its name. A filter without a state, and a filter of a name that
/// the search does not understand, add nothing.
pub open spec fn filter_terms(filter: InputView) -> Seq<Seq<char>> {
    match filter {
        InputView::Text { name, state } => if state is Some && declared_text_filter(name) {
            if name == "Tag"@ {
                tag_terms(name, state->0)
            } else {
                seq![lowercased(name) + ":"@ + trimmed(state->0)]
            }
        } else {
            Seq::empty()
        },
        _ => Seq::empty(),
    }
}

/// The ordering that one filter of a search asks for: the sort filter asks
/// for its chosen value, or for its first value while nothing is chosen.
/// An index that names no value asks for nothing.
pub open spec fn filter_sort(filter: InputView) -> Option<Seq<char>> {
    match filter {
        InputView::Select { name, values, state } => if name == "Sort"@ {
            match value_at(values, state.unwrap_or(0)) {
                Some(InputTypeView::Text(value)) => Some(
                    "sort="@ + lowercased(replaced(value, " "@, "-"@)),
                ),
                _ => None,
            }
        } else {
            None
        },
        _ => None,
    }
}

/// The terms of all stored preferences, in order.
pub open spec fn all_preference_terms(preferences: Seq<InputView>) -> Seq<Seq<char>>
    decreases preferences.len(),
{
    if preferences.len() == 0 {
        Seq::empty()
    } else {
        all_preference_terms(preferences.drop_last()) + preference_terms(preferences.last())
    }
}

/// The terms of all filters, in order.
pub open spec fn all_filter_terms(filters: Seq<InputView>) -> Seq<Seq<char>>
    decreases filters.len(),
{
    if filters.len() == 0 {
        Seq::empty()
    } else {
        all_filter_terms(filters.drop_last()) + filter_terms(filters.last())
    }
}

/// The ordering that the filters ask for: that of the last filter that asks
/// for one.
pub open spec fn chosen_sort(filters: Seq<InputView>) -> Option<Seq<char>>
    decreases filters.len(),
{
    if filters.len() == 0 {
        None
    } else if filter_sort(filters.last()) is Some {
        filter_sort(filters.last())
    } else {
        chosen_sort(filters.drop_last())
    }
}

/// The terms of a query: those of the stored preferences, then those of the
/// filters.
pub open spec fn query_terms(preferences: Seq<InputView>, filters: Option<Seq<InputView>>) -> Seq<
    Seq<char>,
> {
    match filters {
        Some(list) => all_preference_terms(preferences) + all_filter_terms(list),
        None => all_preference_terms(preferences),
    }
}

/// The terms joined by blanks, or an empty pair of quotes where there is no
/// term.
pub open spec fn terms_text(terms: Seq<Seq<char>>) -> Seq<char> {
    if terms.len() == 0 {
        "\"\""@
    } else {
        joined(terms, " "@)
    }
}

/// The query that the site is asked: the terms, followed by the ordering
/// where the filters ask for one.
pub open spec fn query_text(preferences: Seq<InputView>, filters: Option<Seq<InputView>>) -> Seq<
    char,
> {
    let terms = terms_text(query_terms(preferences, filters));
    match filters {
        Some(list) => match chosen_sort(list) {
            Some(sort) => terms + "&"@ + sort,
            None => terms,
        },
        None => terms,
    }
}

/// The address of one page of the most popular galleries.
pub open spec fn popular_url(preferences: Seq<InputView>, page: i64) -> Seq<char> {
    URL@ + "/search/?q="@ + query_text(preferences, None) + "&sort=popular&page="@ + decimal_text(
        page_index(page),
    )
}

/// The address of one page of the newest galleries.
pub open spec fn latest_url(preferences: Seq<InputView>, page: i64) -> Seq<char> {
    URL@ + "/search/?q="@ + query_text(preferences, None) + "&page="@ + decimal_text(
        page_index(page),
    )
}

/// The query of a search for a free text: the terms of the stored
/// preferences and then the text, joined by blanks.
pub open spec fn text_query(preferences: Seq<InputView>, text: Seq<char>) -> Seq<char> {
    joined(all_preference_terms(preferences).push(text), " "@)
}

/// The address of one page of a search. Filters come before a free text:
/// where both are given, the text is not used. The stored preferences are
/// applied either way. With neither filters nor text there is nothing to
/// ask.
pub open spec fn search_url(
    preferences: Seq<InputView>,
    page: i64,
    query: Option<Seq<char>>,
    filters: Option<Seq<InputView>>,
) -> Result<Seq<char>, SourceError> {
    if filters is Some {
        Ok(
            URL@ + "/search/?q="@ + query_text(preferences, filters) + "&page="@ + decimal_text(
                page_index(page),
            ),
        )
    } else if query is Some {
        Ok(
            URL@ + "/search/?q="@ + text_query(preferences, query->0) + "&sort=popular&page="@
                + decimal_text(
                page_index(page),
            ),
        )
    } else {
        Err(SourceError::InvalidArgument)
    }
}

/// The address of the page of one gallery.
pub open spec fn gallery_url(path: Seq<char>) -> Seq<char> {
    URL@ + path + "/"@
}

/// How the site writes a listing.
pub open spec fn listing_rule() -> ListingRuleView {
    ListingRuleView {
        item: ".gallery"@,
        cover: AttrRuleView { selector: "a > img"@, attr: "data-src"@ },
        path: AttrRuleView { selector: "a"@, attr: "href"@ },
        title: "a > .caption"@,
        base: None,
    }
}

/// How the site writes the pages of a gallery: the address of each small
/// image gives that of the page.
pub open spec fn pages_rule() -> PagesRuleView {
    PagesRuleView {
        image: AttrRuleView {
            selector: ".thumb-container > .gallerythumb > img"@,
            attr: "data-src"@,
        },
        rewrite: Some(
            RewriteRuleView {
                pattern: THUMBNAIL_PATTERN@,
                template: seq![
                    PieceView::Literal("https://i"@),
                    PieceView::Group(1),
                    PieceView::Literal(".nhentai.net/galleries/"@),
                    PieceView::Group(2),
                    PieceView::Literal("/"@),
                    PieceView::Group(3),
                    PieceView::Literal("."@),
                    PieceView::Group(4),
                ],
            },
        ),
    }
}

/// A description with one more line, `label` and the names joined by
/// commas, where there is a name.
pub open spec fn with_names(description: Seq<char>, label: Seq<char>, names: Seq<Seq<char>>) -> Seq<
    char,
> {
    if joined(names, ","@).len() > 0 {
        description + label + joined(names, ","@)
    } else {
        description
    }
}

/// What the elements of a gallery page hold that its description is made
/// of.
pub struct DescriptionParts {
    pub gallery_id: Seq<Seq<Seq<char>>>,
    pub parodies: Seq<Seq<Seq<char>>>,
    pub characters: Seq<Seq<Seq<char>>>,
    pub languages: Seq<Seq<Seq<char>>>,
    pub categories: Seq<Seq<Seq<char>>>,
    pub pages: Seq<Seq<Seq<char>>>,
}

/// The description of a gallery: its number, then a line each for its
/// parodies, characters, languages and categories where it has some, then
/// its number of pages where the page gives it.
pub open spec fn description_of(parts: DescriptionParts) -> Seq<char> {
    let number = if parts.gallery_id.len() > 0 {
        whole_text(parts.gallery_id[0])
    } else {
        Seq::empty()
    };
    let parodies = with_names(number, "\nParodies: "@, leading_texts(parts.parodies));
    let characters = with_names(parodies, "\nCharacters: "@, leading_texts(parts.characters));
    let languages = with_names(characters, "\nLanguages: "@, leading_texts(parts.languages));
    let categories = with_names(languages, "\nCategories: "@, leading_texts(parts.categories));
    if parts.pages.len() > 0 {
        categories + "\nPages: "@ + whole_text(parts.pages[0])
    } else {
        categories
    }
}

/// The entry of a gallery, given what its page holds. A page without a
/// cover or without a title is a failure; authors, tags and the pieces of
/// the description may be missing.
pub open spec fn detail_of(
    path: Seq<char>,
    parts: DescriptionParts,
    covers: Seq<Option<Seq<char>>>,
    titles: Seq<Seq<Seq<char>>>,
    authors: Seq<Seq<Seq<char>>>,
    genres: Seq<Seq<Seq<char>>>,
) -> Result<MangaInfoView, SourceError> {
    if first_present(covers) is None {
        Err(SourceError::ParseError(Cause::Cover))
    } else if first_text(titles) is None {
        Err(SourceError::ParseError(Cause::Title))
    } else {
        Ok(
            MangaInfoView {
                source_id: ID,
                title: first_text(titles)->0,
                author: all_texts(authors),
                genre: all_texts(genres),
                status: None,
                description: Some(description_of(parts)),
                path,
                cover_url: first_present(covers)->0,
            },
        )
    }
}

/// The entry of a gallery that the document `html` holds.
pub open spec fn detail_in(path: Seq<char>, html: Seq<char>) -> Result<MangaInfoView, SourceError> {
    match (
        selected_texts(html, "h3[id=\"gallery_id\"]"@),
        selected_texts(html, "a[href^=\"/parody/\"] > .name"@),
        selected_texts(html, "a[href^=\"/character/\"] > .name"@),
        selected_texts(html, "a[href^=\"/language/\"] > .name"@),
        selected_texts(html, "a[href^=\"/category/\"] > .name"@),
        selected_texts(html, "a[href^=\"/search/?q=pages\"] > .name"@),
        selected_attrs(html, "#cover > a > img"@, "data-src"@),
        selected_texts(html, "h1.title > .pretty"@),
        selected_texts(html, "a[href^=\"/artist/\"] > .name"@),
        selected_texts(html, "a[href^=\"/tag/\"] > .name"@),
    ) {
        (
            Some(gallery_id),
            Some(parodies),
            Some(characters),
            Some(languages),
            Some(categories),
            Some(pages),
            Some(covers),
            Some(titles),
            Some(authors),
            Some(genres),
        ) => detail_of(
            path,
            DescriptionParts { gallery_id, parodies, characters, languages, categories, pages },
            covers,
            titles,
            authors,
            genres,
        ),
        _ => Err(SourceError::ParseError(Cause::Selector)),
    }
}

/// The time of upload that the first time element of a gallery page gives,
/// or 0 where there is none, it has no time, or the time cannot be read.
pub open spec fn uploaded_of(times: Seq<Option<Seq<char>>>) -> i64 {
    if times.len() > 0 && times[0] is Some {
        match timestamp_of(times[0]->0, UPLOADED_FORMAT@) {
            Some(seconds) => seconds,
            None => 0,
        }
    } else {
        0
    }
}

/// The chapters of a gallery: always one, with the first group named as
/// its scanlator.
pub open spec fn chapters_of(
    path: Seq<char>,
    groups: Seq<Seq<Seq<char>>>,
    times: Seq<Option<Seq<char>>>,
) -> Seq<ChapterInfoView> {
    seq![
        ChapterInfoView {
            source_id: ID,
            title: "Chapter 1"@,
            path,
            number: "1"@,
            scanlator: first_text(groups),
            uploaded: uploaded_of(times),
        },
    ]
}

/// The chapters of the gallery that the document `html` holds.
pub open spec fn chapters_in(path: Seq<char>, html: Seq<char>) -> Result<
    Seq<ChapterInfoView>,
    SourceError,
> {
    match (
        selected_texts(html, "a[href^=\"/group/\"] > .name"@),
        selected_attrs(html, ".tags > time"@, "datetime"@),
    ) {
        (Some(groups), Some(times)) => Ok(chapters_of(path, groups, times)),
        _ => Err(SourceError::ParseError(Cause::Selector)),
    }
}

/// The value at `index` in `values`, where the index names one.
fn pick_value(values: &Vec<InputType>, index: i64) -> (out: Option<&InputType>)
    ensures
        out.deep_view() == value_at(values.deep_view(), index),
{
    if index < 0 || index as u64 >= values.len() as u64 {
        None
    } else {
        Some(&values[index as usize])
    }
}

/// Adds the terms that leave out the tags of `list`.
fn push_blacklist_terms(terms: &mut Vec<String>, list: &str)
    ensures
        final(terms).deep_view() == old(terms).deep_view() + blacklist_terms(list@),
{
    let ghost before = terms.deep_view();
    let pieces = split_on(list, ',');
    let mut j: usize = 0;
    proof {
        assert(before + blacklist_terms(list@).take(0) =~= before);
    }
    while j < pieces.len()
        invariant
            0 <= j <= pieces.len(),
            pieces.deep_view() == split(list@, ','),
            terms.deep_view() == before + blacklist_terms(list@).take(j as int),
        decreases pieces.len() - j,
    {
        let tag = trim(pieces[j].as_str());
        let term = glue("-tag:", tag.as_str());
        let ghost was = terms.deep_view();
        proof {
            assert(pieces.deep_view()[j as int] == pieces@[j as int]@);
        }
        terms.push(term);
        proof {
            assert(terms.deep_view() =~= was.push(term@));
            assert(blacklist_terms(list@).take(j as int + 1) =~= blacklist_terms(list@).take(
                j as int,
            ).push(term@));
            assert(terms.deep_view() =~= before + blacklist_terms(list@).take(j as int + 1));
        }
        j += 1;
    }
    proof {
        assert(blacklist_terms(list@).take(pieces.len() as int) =~= blacklist_terms(list@));
    }
}

/// Adds the terms that a stored preference adds to every query.
fn push_preference_terms(terms: &mut Vec<String>, preference: &Input)
    ensures
        final(terms).deep_view() == old(terms).deep_view() + preference_terms(
            preference.deep_view(),
        ),
{
    let ghost before = terms.deep_view();
    proof {
        assert(before + Seq::<Seq<char>>::empty() =~= before);
    }
    match preference {
        Input::Select { name, values, state } => {
            if same_text(name.as_str(), "Language") {
                match state {
                    Some(index) => match pick_value(values, *index) {
                        Some(InputType::Text(language)) => {
                            if !same_text(language.as_str(), "Any") {
                                let lower = language.as_str().to_lowercase();
                                let term = glue("language:", lower.as_str());
                                terms.push(term);
                                proof {
                                    assert(terms.deep_view() =~= before.push(term@));
                                    assert(before.push(term@) =~= before + seq![term@]);
                                }
                            }
                        },
                        _ => {},
                    },
                    None => {},
                }
            }
        },
        Input::Text { name, state } => {
            if same_text(name.as_str(), "Blacklist Tag") {
                match state {
                    Some(list) => {
                        push_blacklist_terms(terms, list.as_str());
                    },
                    None => {},
                }
            }
        },
        _ => {},
    }
}

/// The term for one tag of the tag filter.
fn make_tag_term(name: &str, tag: &str) -> (out: String)
    ensures
        out@ == tag_term(name@, tag@),
{
    let lower = name.to_lowercase();
    let clean = trim(tag);
    if starts_with_char(clean.as_str(), '-') {
        proof {
            reveal_strlit("");
            assert(""@ =~= Seq::<char>::empty());
        }
        let kept = replace(clean.as_str(), "-", "");
        let mut out = glue("-", lower.as_str());
        out.append(":");
        out.append(kept.as_str());
        out
    } else {
        let mut out = glue(lower.as_str(), ":");
        out.append(clean.as_str());
        out
    }
}

/// Adds the terms for the tags of `list`.
fn push_tag_terms(terms: &mut Vec<String>, name: &str, list: &str)
    ensures
        final(terms).deep_view() == old(terms).deep_view() + tag_terms(name@, list@),
{
    let ghost before = terms.deep_view();
    let pieces = split_on(list, ',');
    let mut j: usize = 0;
    proof {
        assert(before + tag_terms(name@, list@).take(0) =~= before);
    }
    while j < pieces.len()
        invariant
            0 <= j <= pieces.len(),
            pieces.deep_view() == split(list@, ','),
            terms.deep_view() == before + tag_terms(name@, list@).take(j as int),
        decreases pieces.len() - j,
    {
        let term = make_tag_term(name, pieces[j].as_str());
        let ghost was = terms.deep_view();
        proof {
            assert(pieces.deep_view()[j as int] == pieces@[j as int]@);
        }
        terms.push(term);
        proof {
            assert(terms.deep_view() =~= was.push(term@));
            assert(tag_terms(name@, list@).take(j as int + 1) =~= tag_terms(name@, list@).take(
                j as int,
            ).push(term@));
            assert(terms.deep_view() =~= before + tag_terms(name@, list@).take(j as int + 1));
        }
        j += 1;
    }
    proof {
        assert(tag_terms(name@, list@).take(pieces.len() as int) =~= tag_terms(name@, list@));
    }
}

/// Whether `name` is the name of one of the text filters that a search
/// understands.
fn is_declared_text_filter(name: &str) -> (found: bool)
    ensures
        found == declared_text_filter(name@),
{
    same_text(name, "Tag") || same_text(name, "Characters") || same_text(name, "Categories")
        || same_text(name, "Parodies") || same_text(name, "Artists") || same_text(name, "Groups")
}

/// Adds the terms that one filter of a search adds.
fn push_filter_terms(terms: &mut Vec<String>, filter: &Input)
    ensures
        final(terms).deep_view() == old(terms).deep_view() + filter_terms(filter.deep_view()),
{
    let ghost before = terms.deep_view();
    proof {
        assert(before + Seq::<Seq<char>>::empty() =~= before);
    }
    match filter {
        Input::Text { name, state } => match state {
            Some(text) => {
                if !is_declared_text_filter(name.as_str()) {
                    // A filter that the search does not understand adds nothing.
                } else if same_text(name.as_str(), "Tag") {
                    push_tag_terms(terms, name.as_str(), text.as_str());
                } else {
                    let lower = name.as_str().to_lowercase();
                    let clean = trim(text.as_str());
                    let mut term = glue(lower.as_str(), ":");
                    term.append(clean.as_str());
                    terms.push(term);
                    proof {
                        assert(terms.deep_view() =~= before.push(term@));
                        assert(before.push(term@) =~= before + seq![term@]);
                    }
                }
            },
            None => {},
        },
        _ => {},
    }
}

/// The ordering that one filter of a search asks for.
fn pick_sort(filter: &Input) -> (out: Option<String>)
    ensures
        out.deep_view() == filter_sort(filter.deep_view()),
{
    match filter {
        Input::Select { name, values, state } => {
            if same_text(name.as_str(), "Sort") {
                let index = match state {
                    Some(i) => *i,
                    None => 0,
                };
                match pick_value(values, index) {
                    Some(InputType::Text(value)) => {
                        let dashed = replace(value.as_str(), " ", "-");
                        let lower = dashed.as_str().to_lowercase();
                        Some(glue("sort=", lower.as_str()))
                    },
                    _ => None,
                }
            } else {
                None
            }
        },
        _ => None,
    }
}

/// The source with its stored preferences.
#[derive(Debug)]
pub struct NHentai {
    preferences: Vec<Input>,
}

impl NHentai {
    /// The stored preferences.
    pub closed spec fn stored(&self) -> Seq<InputView> {
        self.preferences.deep_view()
    }

    /// A new instance, with the preferences nobody has set yet.
    pub fn new() -> (out: NHentai)
        ensures
            out.stored() == default_preferences(),
    {
        let mut preferences: Vec<Input> = Vec::new();
        let languages = vec!["Any", "English", "Japanese", "Chinese"];
        preferences.push(make_select("Language", languages));
        preferences.push(make_text("Blacklist Tag"));
        proof {
            assert(views(languages@) =~= seq!["Any"@, "English"@, "Japanese"@, "Chinese"@]);
            assert(preferences.deep_view() =~= default_preferences());
        }
        NHentai { preferences }
    }

    /// The terms that the stored preferences add to every query.
    pub fn stored_terms(&self) -> (terms: Vec<String>)
        ensures
            terms.deep_view() == all_preference_terms(self.stored()),
    {
        let ghost stored = self.preferences.deep_view();
        let mut terms: Vec<String> = Vec::new();
        let mut i: usize = 0;
        proof {
            assert(stored.take(0) =~= Seq::empty());
            assert(terms.deep_view() =~= Seq::empty());
        }
        while i < self.preferences.len()
            invariant
                0 <= i <= self.preferences.len(),
                stored == self.preferences.deep_view(),
                terms.deep_view() == all_preference_terms(stored.take(i as int)),
            decreases self.preferences.len() - i,
        {
            proof {
                assert(stored.take(i as int + 1).drop_last() =~= stored.take(i as int));
                assert(stored.take(i as int + 1).last() == self.preferences@[i as int].deep_view());
            }
            push_preference_terms(&mut terms, &self.preferences[i]);
            i += 1;
        }
        proof {
            assert(stored.take(self.preferences.len() as int) =~= stored);
        }
        terms
    }

    /// The query that the site is asked for the stored preferences and the
    /// filters of a search.
    pub fn query(&self, filters: Option<Vec<Input>>) -> (out: String)
        ensures
            out@ == query_text(self.stored(), filters.deep_view()),
    {
        let mut terms = self.stored_terms();
        let mut sort: Option<String> = None;
        match &filters {
            Some(list) => {
                let ghost given = list.deep_view();
                let ghost first = terms.deep_view();
                let mut j: usize = 0;
                proof {
                    assert(given.take(0) =~= Seq::empty());
                    assert(first + Seq::<Seq<char>>::empty() =~= first);
                }
                while j < list.len()
                    invariant
                        0 <= j <= list.len(),
                        given == list.deep_view(),
                        terms.deep_view() == first + all_filter_terms(given.take(j as int)),
                        sort.deep_view() == chosen_sort(given.take(j as int)),
                    decreases list.len() - j,
                {
                    proof {
                        assert(given.take(j as int + 1).drop_last() =~= given.take(j as int));
                        assert(given.take(j as int + 1).last() == list@[j as int].deep_view());
                    }
                    let ghost was = terms.deep_view();
                    push_filter_terms(&mut terms, &list[j]);
                    proof {
                        assert(terms.deep_view() =~= first + all_filter_terms(
                            given.take(j as int + 1),
                        ));
                    }
                    match pick_sort(&list[j]) {
                        Some(s) => {
                            sort = Some(s);
                        },
                        None => {},
                    }
                    j += 1;
                }
                proof {
                    assert(given.take(list.len() as int) =~= given);
                }
            },
            None => {},
        }
        let mut out = if terms.len() == 0 {
            "\"\"".to_owned()
        } else {
            join(&terms, " ")
        };
        match sort {
            Some(s) => {
                out.append("&");
                out.append(s.as_str());
            },
            None => {},
        }
        out
    }

    /// Merges `preferences` into the stored ones, by name and kind.
    pub fn set_preferences(&mut self, preferences: Vec<Input>)
        ensures
            final(self).stored() == merged(old(self).stored(), preferences.deep_view()),
    {
        merge_preferences(&mut self.preferences, preferences);
    }

    /// The stored preferences.
    pub fn get_preferences(&self) -> (out: Vec<Input>)
        ensures
            out.deep_view() == self.stored(),
    {
        clone_inputs(&self.preferences)
    }

    /// The filters a search understands.
    pub fn filter_list(&self) -> (out: Vec<Input>)
        ensures
            out.deep_view() == filters(),
    {
        let mut out: Vec<Input> = Vec::new();
        out.push(make_text("Tag"));
        out.push(make_text("Characters"));
        out.push(make_text("Categories"));
        out.push(make_text("Parodies"));
        out.push(make_text("Artists"));
        out.push(make_text("Groups"));
        let sorts = vec!["Popular", "Popular Week", "Popular Today", "Recent"];
        out.push(make_select("Sort", sorts));
        proof {
            assert(views(sorts@) =~= seq![
                "Popular"@,
                "Popular Week"@,
                "Popular Today"@,
                "Recent"@,
            ]);
            assert(out.deep_view() =~= filters());
        }
        out
    }

    /// What the source is.
    pub fn get_source_info(&self) -> (out: SourceInfo)
        ensures
            out.deep_view() == (SourceInfoView {
                id: ID,
                name: "NHentai"@,
                url: URL@,
                version: VERSION@,
                icon: "https://static.nhentai.net/img/logo.090da3be7b51.svg"@,
                languages: LangView::Multi(seq!["en"@, "jp"@, "ch"@]),
                nsfw: true,
            }),
    {
        let mut codes: Vec<String> = Vec::new();
        codes.push("en".to_owned());
        codes.push("jp".to_owned());
        codes.push("ch".to_owned());
        proof {
            assert(codes.deep_view() =~= seq!["en"@, "jp"@, "ch"@]);
        }
        SourceInfo {
            id: ID,
            name: "NHentai".to_owned(),
            url: URL.to_owned(),
            version: VERSION,
            icon: "https://static.nhentai.net/img/logo.090da3be7b51.svg",
            languages: Lang::Multi(codes),
            nsfw: true,
        }
    }

    /// The request for one page of the most popular galleries.
    pub fn popular_request(&self, page: i64) -> (out: Request)
        ensures
            out.deep_view() == plain_get(popular_url(self.stored(), page)),
    {
        let mut url = glue(URL, "/search/?q=");
        url.append(self.query(None).as_str());
        url.append("&sort=popular&page=");
        url.append(page_text(page).as_str());
        get(url)
    }

    /// The request for one page of the newest galleries.
    pub fn latest_request(&self, page: i64) -> (out: Request)
        ensures
            out.deep_view() == plain_get(latest_url(self.stored(), page)),
    {
        let mut url = glue(URL, "/search/?q=");
        url.append(self.query(None).as_str());
        url.append("&page=");
        url.append(page_text(page).as_str());
        get(url)
    }

    /// The request for one page of a search, by filters or else by a free
    /// text. With neither, the arguments are invalid.
    pub fn search_request(&self, page: i64, query: Option<String>, filters: Option<Vec<Input>>) -> (out:
        Result<Request, SourceError>)
        ensures
            match search_url(self.stored(), page, query.deep_view(), filters.deep_view()) {
                Ok(url) => out is Ok && out->Ok_0.deep_view() == plain_get(url),
                Err(e) => out == Err::<Request, SourceError>(e),
            },
            out == Err::<Request, SourceError>(SourceError::InvalidArgument) <==> (query is None
                && filters is None),
    {
        if filters.is_some() {
            let mut url = glue(URL, "/search/?q=");
            url.append(self.query(filters).as_str());
            url.append("&page=");
            url.append(page_text(page).as_str());
            Ok(get(url))
        } else {
            match query {
                Some(text) => {
                    let mut terms = self.stored_terms();
                    let ghost stored = terms.deep_view();
                    terms.push(text);
                    proof {
                        assert(terms.deep_view() =~= stored.push(text@));
                    }
                    let mut url = glue(URL, "/search/?q=");
                    url.append(join(&terms, " ").as_str());
                    url.append("&sort=popular&page=");
                    url.append(page_text(page).as_str());
                    Ok(get(url))
                },
                None => Err(SourceError::InvalidArgument),
            }
        }
    }

    /// The request for the page of the gallery at `path`, which holds its
    /// detail, its chapter and its pages.
    pub fn gallery_request(&self, path: &str) -> (out: Request)
        ensures
            out.deep_view() == plain_get(gallery_url(path@)),
    {
        let mut url = glue(URL, path);
        url.append("/");
        get(url)
    }

    /// The galleries that a listing page holds.
    pub fn parse_manga_list(&self, html: &str) -> (out: Result<Vec<MangaInfo>, SourceError>)
        ensures
            gives(out, listing_in(ID, html@, listing_rule())),
            out matches Ok(list) ==> list.len() == matched(html@, ".gallery"@),
            out != Err::<Vec<MangaInfo>, SourceError>(SourceError::ParseError(Cause::Shape)),
    {
        let rule = ListingRule {
            item: ".gallery".to_owned(),
            cover: AttrRule { selector: "a > img".to_owned(), attr: "data-src".to_owned() },
            path: AttrRule { selector: "a".to_owned(), attr: "href".to_owned() },
            title: "a > .caption".to_owned(),
            base: None,
        };
        read_listing(ID, html, &rule)
    }

    /// The pages that a gallery page holds.
    pub fn parse_pages(&self, html: &str) -> (out: Result<Vec<String>, SourceError>)
        ensures
            gives(out, pages_in(html@, pages_rule())),
            out matches Ok(pages) ==> pages.len() == matched(html@, ".thumb-container > .gallerythumb > img"@),
            out != Err::<Vec<String>, SourceError>(SourceError::ParseError(Cause::Shape)),
    {
        let mut template: Vec<Piece> = Vec::new();
        template.push(Piece::Literal("https://i".to_owned()));
        template.push(Piece::Group(1));
        template.push(Piece::Literal(".nhentai.net/galleries/".to_owned()));
        template.push(Piece::Group(2));
        template.push(Piece::Literal("/".to_owned()));
        template.push(Piece::Group(3));
        template.push(Piece::Literal(".".to_owned()));
        template.push(Piece::Group(4));
        let rule = PagesRule {
            image: AttrRule {
                selector: ".thumb-container > .gallerythumb > img".to_owned(),
                attr: "data-src".to_owned(),
            },
            rewrite: Some(RewriteRule { pattern: THUMBNAIL_PATTERN.to_owned(), template }),
        };
        proof {
            assert(rule.rewrite->0.template.deep_view() =~= pages_rule().rewrite->0.template);
        }
        read_pages(html, &rule)
    }

    /// The entry of the gallery at `path` that its page holds.
    pub fn parse_manga_detail(&self, path: String, html: &str) -> (out: Result<
        MangaInfo,
        SourceError,
    >)
        ensures
            gives(out, detail_in(path@, html@)),
    {
        let gallery_id = select_texts(html, "h3[id=\"gallery_id\"]");
        let parodies = select_texts(html, "a[href^=\"/parody/\"] > .name");
        let characters = select_texts(html, "a[href^=\"/character/\"] > .name");
        let languages = select_texts(html, "a[href^=\"/language/\"] > .name");
        let categories = select_texts(html, "a[href^=\"/category/\"] > .name");
        let pages = select_texts(html, "a[href^=\"/search/?q=pages\"] > .name");
        let covers = select_attrs(html, "#cover > a > img", "data-src");
        let titles = select_texts(html, "h1.title > .pretty");
        let authors = select_texts(html, "a[href^=\"/artist/\"] > .name");
        let genres = select_texts(html, "a[href^=\"/tag/\"] > .name");
        match (
            gallery_id,
            parodies,
            characters,
            languages,
            categories,
            pages,
            covers,
            titles,
            authors,
            genres,
        ) {
            (
                Some(gallery_id),
                Some(parodies),
                Some(characters),
                Some(languages),
                Some(categories),
                Some(pages),
                Some(covers),
                Some(titles),
                Some(authors),
                Some(genres),
            ) => detail_from(
                path,
                &gallery_id,
                &parodies,
                &characters,
                &languages,
                &categories,
                &pages,
                &covers,
                &titles,
                &authors,
                &genres,
            ),
            _ => Err(SourceError::ParseError(Cause::Selector)),
        }
    }

    /// The chapters of the gallery at `path` that its page holds.
    pub fn parse_chapters(&self, path: String, html: &str) -> (out: Result<
        Vec<ChapterInfo>,
        SourceError,
    >)
        ensures
            gives(out, chapters_in(path@, html@)),
            out matches Ok(list) ==> list.len() == 1,
            out != Err::<Vec<ChapterInfo>, SourceError>(SourceError::ParseError(Cause::Shape)),
    {
        let groups = select_texts(html, "a[href^=\"/group/\"] > .name");
        let times = select_attrs(html, ".tags > time", "datetime");
        match (groups, times) {
            (Some(groups), Some(times)) => Ok(chapters_from(path, &groups, &times)),
            _ => Err(SourceError::ParseError(Cause::Selector)),
        }
    }
}

/// A description with one more line, `label` and the first texts of the
/// elements joined by commas, where there is one.
fn add_names(description: String, label: &str, elements: &Vec<Vec<String>>) -> (out: String)
    ensures
        out@ == with_names(description@, label@, leading_texts(elements.deep_view())),
{
    let names = collect_leading_texts(elements);
    let line = join(&names, ",");
    if line.as_str().is_empty() {
        description
    } else {
        let mut out = description;
        out.append(label);
        out.append(line.as_str());
        out
    }
}

/// The description of a gallery, given what its page holds.
pub fn description_from(
    gallery_id: &Vec<Vec<String>>,
    parodies: &Vec<Vec<String>>,
    characters: &Vec<Vec<String>>,
    languages: &Vec<Vec<String>>,
    categories: &Vec<Vec<String>>,
    pages: &Vec<Vec<String>>,
) -> (out: String)
    ensures
        out@ == description_of(
            DescriptionParts {
                gallery_id: gallery_id.deep_view(),
                parodies: parodies.deep_view(),
                characters: characters.deep_view(),
                languages: languages.deep_view(),
                categories: categories.deep_view(),
                pages: pages.deep_view(),
            },
        ),
{
    let mut out = String::new();
    if gallery_id.len() > 0 {
        proof {
            assert(gallery_id.deep_view()[0] == gallery_id@[0].deep_view());
        }
        out = collect_whole_text(&gallery_id[0]);
    }
    out = add_names(out, "\nParodies: ", parodies);
    out = add_names(out, "\nCharacters: ", characters);
    out = add_names(out, "\nLanguages: ", languages);
    out = add_names(out, "\nCategories: ", categories);
    if pages.len() > 0 {
        proof {
            assert(pages.deep_view()[0] == pages@[0].deep_view());
        }
        out.append("\nPages: ");
        out.append(collect_whole_text(&pages[0]).as_str());
    }
    out
}

/// The entry of a gallery, given what its page holds.
pub fn detail_from(
    path: String,
    gallery_id: &Vec<Vec<String>>,
    parodies: &Vec<Vec<String>>,
    characters: &Vec<Vec<String>>,
    languages: &Vec<Vec<String>>,
    categories: &Vec<Vec<String>>,
    pages: &Vec<Vec<String>>,
    covers: &Vec<Option<String>>,
    titles: &Vec<Vec<String>>,
    authors: &Vec<Vec<String>>,
    genres: &Vec<Vec<String>>,
) -> (out: Result<MangaInfo, SourceError>)
    ensures
        gives(
            out,
            detail_of(
                path@,
                DescriptionParts {
                    gallery_id: gallery_id.deep_view(),
                    parodies: parodies.deep_view(),
                    characters: characters.deep_view(),
                    languages: languages.deep_view(),
                    categories: categories.deep_view(),
                    pages: pages.deep_view(),
                },
                covers.deep_view(),
                titles.deep_view(),
                authors.deep_view(),
                genres.deep_view(),
            ),
        ),
{
    let description = description_from(
        gallery_id,
        parodies,
        characters,
        languages,
        categories,
        pages,
    );
    let cover_url = match pick_first(covers) {
        Some(c) => c,
        None => {
            return Err(SourceError::ParseError(Cause::Cover));
        },
    };
    let title = match pick_first_text(titles) {
        Some(t) => t,
        None => {
            return Err(SourceError::ParseError(Cause::Title));
        },
    };
    Ok(
        MangaInfo {
            source_id: ID,
            title,
            author: collect_texts(authors),
            genre: collect_texts(genres),
            status: None,
            description: Some(description),
            path,
            cover_url,
        },
    )
}

/// The time of upload that the first time element of a gallery page gives.
pub fn uploaded_from(times: &Vec<Option<String>>) -> (out: i64)
    ensures
        out == uploaded_of(times.deep_view()),
{
    if times.len() > 0 {
        proof {
            assert(times.deep_view()[0] == times@[0].deep_view());
        }
        match &times[0] {
            Some(text) => match parse_timestamp(text.as_str(), UPLOADED_FORMAT) {
                Some(seconds) => seconds,
                None => 0,
            },
            None => 0,
        }
    } else {
        0
    }
}

/// The chapters of a gallery, given what its page holds.
pub fn chapters_from(path: String, groups: &Vec<Vec<String>>, times: &Vec<Option<String>>) -> (out:
    Vec<ChapterInfo>)
    ensures
        out.deep_view() == chapters_of(path@, groups.deep_view(), times.deep_view()),
        out.len() == 1,
{
    let chapter = ChapterInfo {
        source_id: ID,
        title: "Chapter 1".to_owned(),
        path,
        number: "1".to_owned(),
        scanlator: pick_first_text(groups),
        uploaded: uploaded_from(times),
    };
    let mut out: Vec<ChapterInfo> = Vec::new();
    out.push(chapter);
    proof {
        assert(out.deep_view() =~= chapters_of(path@, groups.deep_view(), times.deep_view()));
    }
    out
}

/// The page of a gallery is an entry as soon as it has a cover and a
/// title: without a title it fails, and with both it succeeds whatever else
/// is missing, with no author and no tag where the page has none.
pub proof fn lemma_detail_needs_cover_and_title(
    path: Seq<char>,
    parts: DescriptionParts,
    covers: Seq<Option<Seq<char>>>,
    titles: Seq<Seq<Seq<char>>>,
    authors: Seq<Seq<Seq<char>>>,
    genres: Seq<Seq<Seq<char>>>,
)
    ensures
        first_text(titles) is None ==> detail_of(path, parts, covers, titles, authors, genres)
            is Err,
        first_present(covers) is Some && first_text(titles) is None ==> detail_of(
            path,
            parts,
            covers,
            titles,
            authors,
            genres,
        ) == Err::<MangaInfoView, SourceError>(SourceError::ParseError(Cause::Title)),
        first_present(covers) is Some && first_text(titles) is Some ==> detail_of(
            path,
            parts,
            covers,
            titles,
            authors,
            genres,
        ) is Ok,
        first_present(covers) is Some && first_text(titles) is Some && authors.len() == 0
            && genres.len() == 0 ==> {
            let entry = detail_of(path, parts, covers, titles, authors, genres)->Ok_0;
            entry.author.len() == 0 && entry.genre.len() == 0 && entry.description is Some
        },
{
}

/// A gallery is never without the time of its upload: where the page has
/// no time element, or the element tells no time, the time is 0.
pub proof fn lemma_uploaded_never_fails(times: Seq<Option<Seq<char>>>)
    ensures
        times.len() == 0 ==> uploaded_of(times) == 0,
        times.len() > 0 && times[0] is None ==> uploaded_of(times) == 0,
        times.len() > 0 && times[0] is Some && timestamp_of(times[0]->0, UPLOADED_FORMAT@)
            is None ==> uploaded_of(times) == 0,
{
}

/// Two pages of the newest galleries, and two of the most popular, are asked
/// for at addresses that differ in the page number alone, and differ there
/// whenever the pages differ: no page is asked for in place of another.
pub proof fn lemma_listing_pages_differ(preferences: Seq<InputView>, a: i64, b: i64)
    requires
        page_index(a) != page_index(b),
    ensures
        latest_url(preferences, a) == URL@ + "/search/?q="@ + query_text(preferences, None)
            + "&page="@ + decimal_text(page_index(a)),
        latest_url(preferences, b) == URL@ + "/search/?q="@ + query_text(preferences, None)
            + "&page="@ + decimal_text(page_index(b)),
        decimal_text(page_index(a)) != decimal_text(page_index(b)),
        latest_url(preferences, a) != latest_url(preferences, b),
        popular_url(preferences, a) != popular_url(preferences, b),
{
    lemma_decimal_text_differs(page_index(a), page_index(b));
    let x = decimal_text(page_index(a));
    let y = decimal_text(page_index(b));
    let newest = URL@ + "/search/?q="@ + query_text(preferences, None) + "&page="@;
    let loved = URL@ + "/search/?q="@ + query_text(preferences, None) + "&sort=popular&page="@;
    assert((newest + x).skip(newest.len() as int) =~= x);
    assert((newest + y).skip(newest.len() as int) =~= y);
    assert((loved + x).skip(loved.len() as int) =~= x);
    assert((loved + y).skip(loved.len() as int) =~= y);
}

/// The path that a listing gives for a gallery is the link found in its
/// item, unchanged; the page of the gallery is asked for under the site's
/// address, that path and a stroke; and the entry read from that page has
/// the same path and belongs to this source.
pub proof fn lemma_listed_path_resolves(
    cover: Seq<Option<Seq<char>>>,
    link: Seq<Option<Seq<char>>>,
    title: Seq<Seq<Seq<char>>>,
    html: Seq<char>,
)
    requires
        crate::engine::listed_item(ID, cover, link, title, None) is Ok,
    ensures
        ({
            let path = crate::engine::listed_item(ID, cover, link, title, None)->Ok_0.path;
            &&& first_present(link) == Some(path)
            &&& gallery_url(path) == URL@ + path + "/"@
            &&& detail_in(path, html) matches Ok(entry) ==> entry.path == path && entry.source_id
                == ID
        }),
{
}

} // verus!

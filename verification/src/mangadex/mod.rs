//! The source MangaDex, which is read through its interface.

pub mod dto;
pub mod filter;
pub mod query;

use crate::clock::{parse_rfc3339, rfc3339_timestamp};
use crate::engine::{chapter_title, gives, make_chapter_title};
use crate::error::{Cause, SourceError};
use crate::input::{clone_inputs, merge_preferences, merged, Input, InputView};
use crate::mangadex::dto::{Data, Localized, Relationship, Results, ResultsAtHome, Status};
use crate::mangadex::filter::{filter_list, filters, with_filters};
use crate::mangadex::query::{
    everything, query_string, ListOrder, MangaList, MangaListView, Order, Rating, PAGE_SIZE,
};
use crate::model::{
    ChapterInfo, ChapterInfoView, Lang, LangView, MangaInfo, MangaInfoView, SourceInfo,
    SourceInfoView,
};
use crate::pattern::{replace_all, replaced_all};
use crate::request::{clamp_page, get, page_index, plain_get, Request};
use crate::text::{glue, replace, replaced, same_text};
use vstd::prelude::*;

verus! {

/// The number of the source.
pub const ID: i64 = 2;

/// The name of the source.
pub const NAME: &'static str = "Mangadex";

/// The address of the interface.
pub const URL: &'static str = "https://api.mangadex.org";

/// The version of the source's rules.
pub const VERSION: &'static str = "0.1.0";

/// The pattern of a pair of tags with what stands between them: an opening
/// tag in square brackets, and the nearest closing tag of the same name.
pub const TAG_PAIR: &'static str = r"\[(\w+)[^]]*](.*?)\[/\1]";

/// The text of the first entry in `language`.
pub open spec fn localized(entries: Seq<Localized>, language: Seq<char>) -> Option<Seq<char>>
    decreases entries.len(),
{
    if entries.len() == 0 {
        None
    } else if entries[0].language@ == language {
        Some(entries[0].text@)
    } else {
        localized(entries.skip(1), language)
    }
}

/// `text` without list marks, and with a line break for a rule.
pub open spec fn without_marks(text: Seq<char>) -> Seq<char> {
    replaced(
        replaced(
            replaced(replaced(text, "[list]"@, Seq::empty()), "[/list]"@, Seq::empty()),
            "[*]"@,
            Seq::empty(),
        ),
        "[hr]"@,
        "\n"@,
    )
}

/// `text` as plain text: without list marks, and with every pair of tags
/// replaced by what stands between them. Tags without a partner stay. Where
/// the search for pairs is given up, all pairs stay.
pub open spec fn plain_text(text: Seq<char>) -> Seq<char> {
    match replaced_all(TAG_PAIR@, without_marks(text), "$2"@) {
        Some(plain) => plain,
        None => without_marks(text),
    }
}

/// The English name of a tag, where the item is a tag that has one.
pub open spec fn tag_name(item: Relationship) -> Option<Seq<char>> {
    match item {
        Relationship::Tag { attributes: Some(a), .. } => localized(a.name@, "en"@),
        _ => None,
    }
}

/// The English names of the tags among the items, in order.
pub open spec fn tag_names(items: Seq<Relationship>) -> Seq<Seq<char>>
    decreases items.len(),
{
    if items.len() == 0 {
        Seq::empty()
    } else {
        match tag_name(items.last()) {
            Some(name) => tag_names(items.drop_last()).push(name),
            None => tag_names(items.drop_last()),
        }
    }
}

/// The name of an author or artist, where the item is one and names it.
pub open spec fn person_name(item: Relationship) -> Option<Seq<char>> {
    match item {
        Relationship::Author { attributes: Some(a), .. } => Some(a.name@),
        Relationship::Artist { attributes: Some(a), .. } => Some(a.name@),
        _ => None,
    }
}

/// The names of the authors and artists among the items, in order.
pub open spec fn people(items: Seq<Relationship>) -> Seq<Seq<char>>
    decreases items.len(),
{
    if items.len() == 0 {
        Seq::empty()
    } else {
        match person_name(items.last()) {
            Some(name) => people(items.drop_last()).push(name),
            None => people(items.drop_last()),
        }
    }
}

/// The file of the last cover among the items that names its file, or the
/// empty text.
pub open spec fn cover_file(items: Seq<Relationship>) -> Seq<char>
    decreases items.len(),
{
    if items.len() == 0 {
        Seq::empty()
    } else {
        match items.last() {
            Relationship::CoverArt { attributes: Some(a), .. } => a.file_name@,
            _ => cover_file(items.drop_last()),
        }
    }
}

/// The name of the last group among the items that names itself, or the
/// empty text.
pub open spec fn group_name(items: Seq<Relationship>) -> Seq<char>
    decreases items.len(),
{
    if items.len() == 0 {
        Seq::empty()
    } else {
        match items.last() {
            Relationship::ScanlationGroup { attributes: Some(a), .. } => a.name@,
            _ => group_name(items.drop_last()),
        }
    }
}

/// The title among the titles in several languages: the English one, else
/// the romanised Japanese one, else the Japanese one, else the first, else
/// the empty text.
pub open spec fn title_of(titles: Seq<Localized>) -> Seq<char> {
    if localized(titles, "en"@) is Some {
        localized(titles, "en"@)->0
    } else if localized(titles, "ja-ro"@) is Some {
        localized(titles, "ja-ro"@)->0
    } else if localized(titles, "ja"@) is Some {
        localized(titles, "ja"@)->0
    } else if titles.len() > 0 {
        titles[0].text@
    } else {
        Seq::empty()
    }
}

/// The name of a status.
pub open spec fn status_name(status: Status) -> Seq<char> {
    match status {
        Status::Ongoing => "ongoing"@,
        Status::Completed => "completed"@,
        Status::Hiatus => "hiatus"@,
        Status::Cancelled => "cancelled"@,
    }
}

/// The entry that an item gives, where the item is a manga and tells its
/// title. A manga without a title gives no entry.
pub open spec fn manga_of(item: Relationship) -> Option<MangaInfoView> {
    match described(item) {
        Some(entry) => if entry.title.len() > 0 {
            Some(entry)
        } else {
            None
        },
        None => None,
    }
}

/// What an item tells of a manga, where the item is one: its title as far
/// as it tells one, the people and tags it names, its status, its English
/// description as plain text, and the path and cover that its id gives.
pub open spec fn described(item: Relationship) -> Option<MangaInfoView> {
    match item {
        Relationship::Manga { id, attributes, relationships } => Some(
            MangaInfoView {
                source_id: ID,
                title: match attributes {
                    Some(a) => title_of(a.title@),
                    None => Seq::empty(),
                },
                author: people(relationships@),
                genre: match attributes {
                    Some(a) => tag_names(a.tags@),
                    None => Seq::empty(),
                },
                status: match attributes {
                    Some(a) => match a.status {
                        Some(s) => Some(status_name(s)),
                        None => None,
                    },
                    None => None,
                },
                description: match attributes {
                    Some(a) => match localized(a.description@, "en"@) {
                        Some(text) => Some(plain_text(text)),
                        None => None,
                    },
                    None => None,
                },
                path: "/manga/"@ + id@,
                cover_url: "https://uploads.mangadex.org/covers/"@ + id@ + "/"@ + cover_file(
                    relationships@,
                ),
            },
        ),
        _ => None,
    }
}

/// The entries that the manga among the items give, in order. Items that
/// are no manga are passed over; a manga without a title fails the whole
/// list, for the title.
pub open spec fn mangas_of(items: Seq<Relationship>) -> Result<Seq<MangaInfoView>, SourceError>
    decreases items.len(),
{
    if items.len() == 0 {
        Ok(Seq::empty())
    } else {
        match mangas_of(items.drop_last()) {
            Err(e) => Err(e),
            Ok(before) => if items.last() is Manga {
                match manga_of(items.last()) {
                    Some(entry) => Ok(before.push(entry)),
                    None => Err(SourceError::ParseError(Cause::Title)),
                }
            } else {
                Ok(before)
            },
        }
    }
}

/// The time of publication in seconds since the epoch, or 0 where it
/// cannot be read.
pub open spec fn published(text: Seq<char>) -> i64 {
    match rfc3339_timestamp(text) {
        Some(seconds) => seconds,
        None => 0,
    }
}

/// The chapter that an item gives, where the item is a chapter.
pub open spec fn chapter_of(item: Relationship) -> Option<ChapterInfoView> {
    match item {
        Relationship::Chapter { id, attributes, relationships } => Some(
            ChapterInfoView {
                source_id: ID,
                title: match attributes {
                    Some(a) => chapter_title(
                        a.title.deep_view(),
                        a.volume.deep_view(),
                        a.chapter.deep_view(),
                    ),
                    None => chapter_title(None, None, None),
                },
                path: "/chapter/"@ + id@,
                number: match attributes {
                    Some(a) => match a.chapter {
                        Some(n) => n@,
                        None => Seq::empty(),
                    },
                    None => Seq::empty(),
                },
                scanlator: Some(group_name(relationships@)),
                uploaded: match attributes {
                    Some(a) => published(a.publish_at@),
                    None => 0,
                },
            },
        ),
        _ => None,
    }
}

/// The chapters that the chapters among the items give, in order.
pub open spec fn chapters_of(items: Seq<Relationship>) -> Seq<ChapterInfoView>
    decreases items.len(),
{
    if items.len() == 0 {
        Seq::empty()
    } else {
        match chapter_of(items.last()) {
            Some(chapter) => chapters_of(items.drop_last()).push(chapter),
            None => chapters_of(items.drop_last()),
        }
    }
}

/// The addresses of the pages of a chapter: each file under the server's
/// address and the chapter's hash.
pub open spec fn pages_of(answer: ResultsAtHome) -> Seq<Seq<char>> {
    Seq::new(
        answer.chapter.data@.len(),
        |i: int|
            answer.base_url@ + "/data/"@ + answer.chapter.hash@ + "/"@ + answer.chapter.data@[i]@,
    )
}

/// The listing that an answer gives: the manga of a list of items, or the
/// failure of the first manga without a title. An answer with one item is
/// no listing.
pub open spec fn listing_of(answer: Results) -> Result<Seq<MangaInfoView>, SourceError> {
    match answer.data {
        Data::Multiple { data } => mangas_of(data@),
        Data::Single { .. } => Err(SourceError::ParseError(Cause::Shape)),
    }
}

/// The entry that an answer gives: that of its one item. An item that is
/// no manga is not found; a manga without a title fails for the title. An
/// answer with a list of items is no entry.
pub open spec fn detail_of(answer: Results) -> Result<MangaInfoView, SourceError> {
    match answer.data {
        Data::Single { data } => if data is Manga {
            match manga_of(data) {
                Some(entry) => Ok(entry),
                None => Err(SourceError::ParseError(Cause::Title)),
            }
        } else {
            Err(SourceError::NotFound)
        },
        Data::Multiple { .. } => Err(SourceError::ParseError(Cause::Shape)),
    }
}

/// The chapters that an answer gives: the chapters of a list of items.
pub open spec fn feed_of(answer: Results) -> Result<Seq<ChapterInfoView>, SourceError> {
    match answer.data {
        Data::Multiple { data } => Ok(chapters_of(data@)),
        Data::Single { .. } => Err(SourceError::ParseError(Cause::Shape)),
    }
}

/// The question for one page of a listing: the question asked, with twenty
/// entries from where the page begins.
pub open spec fn paged(page: i64, query: MangaListView) -> MangaListView {
    MangaListView {
        limit: PAGE_SIZE,
        offset: ((page_index(page) - 1) * 20) as u128,
        title: query.title,
        content_rating: query.content_rating,
        order: query.order,
    }
}

/// The address of one page of a listing.
pub open spec fn list_url(page: i64, query: MangaListView) -> Seq<char> {
    URL@ + "/manga?"@ + query_string(paged(page, query))
}

/// The question for the most followed manga.
pub open spec fn popular() -> MangaListView {
    MangaListView {
        limit: 10,
        offset: 0,
        title: None,
        content_rating: Seq::empty(),
        order: Some(ListOrder { followed_count: Some(Order::Desc), latest_uploaded_chapter: None }),
    }
}

/// The question for a title, whatever the rating.
pub open spec fn titled(title: Seq<char>) -> MangaListView {
    MangaListView {
        limit: 10,
        offset: 0,
        title: Some(title),
        content_rating: seq![
            Rating::Safe,
            Rating::Suggestive,
            Rating::Erotica,
            Rating::Pornographic,
        ],
        order: None,
    }
}

/// The question of a search. Filters come before a free text: where both
/// are given, the text is not used. With neither there is nothing to ask.
pub open spec fn search_query(query: Option<Seq<char>>, filters: Option<Seq<InputView>>) -> Result<
    MangaListView,
    SourceError,
> {
    match filters {
        Some(list) => Ok(with_filters(everything(), list)),
        None => match query {
            Some(title) => Ok(titled(title)),
            None => Err(SourceError::InvalidArgument),
        },
    }
}

/// The address of the detail of the manga at `path`.
pub open spec fn detail_url(path: Seq<char>) -> Seq<char> {
    URL@ + path + "?includes[]=author&includes[]=artist&includes[]=cover_art"@
}

/// The address of the chapters of the manga at `path`.
pub open spec fn feed_url(path: Seq<char>) -> Seq<char> {
    URL@ + path
        + "/feed?limit=500&contentRating[]=safe&contentRating[]=suggestive&contentRating[]=erotica&contentRating[]=pornographic&translatedLanguage[]=en&includes[]=scanlation_group"@
}

/// The address that names the server of the pages of the chapter at `path`.
pub open spec fn at_home_url(path: Seq<char>) -> Seq<char> {
    URL@ + "/at-home/server/"@ + replaced(path, "/chapter/"@, Seq::empty())
}

/// The text of the first entry in `language`.
pub fn find_localized(entries: &Vec<Localized>, language: &str) -> (out: Option<String>)
    ensures
        out.deep_view() == localized(entries@, language@),
{
    let mut i: usize = 0;
    proof {
        assert(entries@.skip(0) =~= entries@);
    }
    while i < entries.len()
        invariant
            0 <= i <= entries.len(),
            localized(entries@, language@) == localized(entries@.skip(i as int), language@),
        decreases entries.len() - i,
    {
        proof {
            assert(entries@.skip(i as int).skip(1) =~= entries@.skip(i as int + 1));
        }
        if same_text(entries[i].language.as_str(), language) {
            return Some(entries[i].text.clone());
        }
        i += 1;
    }
    None
}

/// `text` as plain text: without list marks, and with every pair of tags
/// replaced by what stands between them.
pub fn remove_bbcode(text: String) -> (out: String)
    ensures
        out@ == plain_text(text@),
{
    proof {
        reveal_strlit("");
        assert(""@ =~= Seq::<char>::empty());
    }
    let a = replace(text.as_str(), "[list]", "");
    let b = replace(a.as_str(), "[/list]", "");
    let c = replace(b.as_str(), "[*]", "");
    let d = replace(c.as_str(), "[hr]", "\n");
    let found = replace_all(TAG_PAIR, d.as_str(), "$2");
    strip_pairs(d, found)
}

/// What the search for pairs of tags gave, or `text` where it was given
/// up.
pub fn strip_pairs(text: String, found: Result<String, fancy_regex::Error>) -> (out: String)
    ensures
        out@ == (match found {
            Ok(plain) => plain@,
            Err(_) => text@,
        }),
{
    match found {
        Ok(plain) => plain,
        Err(_) => text,
    }
}

/// The English names of the tags among the items, in order.
pub fn map_tags_to_string(relationships: Vec<Relationship>) -> (out: Vec<String>)
    ensures
        out.deep_view() == tag_names(relationships@),
{
    collect_tag_names(&relationships)
}

/// The English names of the tags among the items, in order.
fn collect_tag_names(items: &Vec<Relationship>) -> (out: Vec<String>)
    ensures
        out.deep_view() == tag_names(items@),
{
    let mut out: Vec<String> = Vec::new();
    let mut i: usize = 0;
    proof {
        assert(items@.take(0) =~= Seq::empty());
        assert(out.deep_view() =~= Seq::empty());
    }
    while i < items.len()
        invariant
            0 <= i <= items.len(),
            out.deep_view() == tag_names(items@.take(i as int)),
        decreases items.len() - i,
    {
        proof {
            assert(items@.take(i as int + 1).drop_last() =~= items@.take(i as int));
        }
        match &items[i] {
            Relationship::Tag { attributes: Some(a), .. } => {
                match find_localized(&a.name, "en") {
                    Some(name) => {
                        let ghost was = out.deep_view();
                        out.push(name);
                        proof {
                            assert(out.deep_view() =~= was.push(name@));
                        }
                    },
                    None => {},
                }
            },
            _ => {},
        }
        i += 1;
    }
    proof {
        assert(items@.take(items.len() as int) =~= items@);
    }
    out
}

/// The names of the authors and artists among the items, in order.
fn collect_people(items: &Vec<Relationship>) -> (out: Vec<String>)
    ensures
        out.deep_view() == people(items@),
{
    let mut out: Vec<String> = Vec::new();
    let mut i: usize = 0;
    proof {
        assert(items@.take(0) =~= Seq::empty());
        assert(out.deep_view() =~= Seq::empty());
    }
    while i < items.len()
        invariant
            0 <= i <= items.len(),
            out.deep_view() == people(items@.take(i as int)),
        decreases items.len() - i,
    {
        proof {
            assert(items@.take(i as int + 1).drop_last() =~= items@.take(i as int));
        }
        let ghost was = out.deep_view();
        match &items[i] {
            Relationship::Author { attributes: Some(a), .. } => {
                out.push(a.name.clone());
                proof {
                    assert(out.deep_view() =~= was.push(a.name@));
                }
            },
            Relationship::Artist { attributes: Some(a), .. } => {
                out.push(a.name.clone());
                proof {
                    assert(out.deep_view() =~= was.push(a.name@));
                }
            },
            _ => {},
        }
        i += 1;
    }
    proof {
        assert(items@.take(items.len() as int) =~= items@);
    }
    out
}

/// The file of the last cover among the items that names its file.
fn find_cover_file(items: &Vec<Relationship>) -> (out: String)
    ensures
        out@ == cover_file(items@),
{
    let mut out = String::new();
    let mut i: usize = 0;
    proof {
        assert(items@.take(0) =~= Seq::empty());
    }
    while i < items.len()
        invariant
            0 <= i <= items.len(),
            out@ == cover_file(items@.take(i as int)),
        decreases items.len() - i,
    {
        proof {
            assert(items@.take(i as int + 1).drop_last() =~= items@.take(i as int));
        }
        match &items[i] {
            Relationship::CoverArt { attributes: Some(a), .. } => {
                out = a.file_name.clone();
            },
            _ => {},
        }
        i += 1;
    }
    proof {
        assert(items@.take(items.len() as int) =~= items@);
    }
    out
}

/// The name of the last group among the items that names itself.
fn find_group_name(items: &Vec<Relationship>) -> (out: String)
    ensures
        out@ == group_name(items@),
{
    let mut out = String::new();
    let mut i: usize = 0;
    proof {
        assert(items@.take(0) =~= Seq::empty());
    }
    while i < items.len()
        invariant
            0 <= i <= items.len(),
            out@ == group_name(items@.take(i as int)),
        decreases items.len() - i,
    {
        proof {
            assert(items@.take(i as int + 1).drop_last() =~= items@.take(i as int));
        }
        match &items[i] {
            Relationship::ScanlationGroup { attributes: Some(a), .. } => {
                out = a.name.clone();
            },
            _ => {},
        }
        i += 1;
    }
    proof {
        assert(items@.take(items.len() as int) =~= items@);
    }
    out
}

/// The title among the titles in several languages.
fn pick_title(titles: &Vec<Localized>) -> (out: String)
    ensures
        out@ == title_of(titles@),
{
    match find_localized(titles, "en") {
        Some(t) => t,
        None => match find_localized(titles, "ja-ro") {
            Some(t) => t,
            None => match find_localized(titles, "ja") {
                Some(t) => t,
                None => if titles.len() > 0 {
                    titles[0].text.clone()
                } else {
                    String::new()
                },
            },
        },
    }
}

impl Status {
    /// The name of the status.
    pub fn name(&self) -> (out: &'static str)
        ensures
            out@ == status_name(*self),
    {
        match self {
            Status::Ongoing => "ongoing",
            Status::Completed => "completed",
            Status::Hiatus => "hiatus",
            Status::Cancelled => "cancelled",
        }
    }
}

/// The entry that an item gives, where the item is a manga.
pub fn map_result_to_manga(data: Relationship) -> (out: Option<MangaInfo>)
    ensures
        out.deep_view() == manga_of(data),
{
    manga_from(&data)
}

/// The entry that an item gives, where the item is a manga.
fn manga_from(data: &Relationship) -> (out: Option<MangaInfo>)
    ensures
        out.deep_view() == manga_of(*data),
{
    match data {
        Relationship::Manga { id, attributes, relationships } => {
            let author = collect_people(relationships);
            let file_name = find_cover_file(relationships);
            let mut title = String::new();
            let mut genre: Vec<String> = Vec::new();
            let mut status: Option<String> = None;
            let mut description: Option<String> = None;
            proof {
                assert(genre.deep_view() =~= Seq::empty());
            }
            match attributes {
                Some(a) => {
                    title = pick_title(&a.title);
                    genre = collect_tag_names(&a.tags);
                    match &a.status {
                        Some(s) => {
                            status = Some(s.name().to_owned());
                        },
                        None => {},
                    }
                    match find_localized(&a.description, "en") {
                        Some(text) => {
                            description = Some(remove_bbcode(text));
                        },
                        None => {},
                    }
                },
                None => {},
            }
            let mut cover_url = glue("https://uploads.mangadex.org/covers/", id.as_str());
            cover_url.append("/");
            cover_url.append(file_name.as_str());
            if title.as_str().is_empty() {
                None
            } else {
                Some(
                    MangaInfo {
                        source_id: ID,
                        title,
                        author,
                        genre,
                        status,
                        description,
                        path: glue("/manga/", id.as_str()),
                        cover_url,
                    },
                )
            }
        },
        _ => None,
    }
}

/// Whether the item is a manga.
fn is_manga(data: &Relationship) -> (found: bool)
    ensures
        found == (*data is Manga),
{
    match data {
        Relationship::Manga { .. } => true,
        _ => false,
    }
}

/// A failure among the first items is the failure of the whole list.
proof fn lemma_mangas_fail(items: Seq<Relationship>, n: nat, m: nat)
    requires
        n <= m <= items.len(),
        mangas_of(items.take(n as int)) is Err,
    ensures
        mangas_of(items.take(m as int)) == mangas_of(items.take(n as int)),
    decreases m,
{
    if n < m {
        lemma_mangas_fail(items, n, (m - 1) as nat);
        assert(items.take(m as int).drop_last() =~= items.take(m - 1));
    }
}

/// The time of publication in seconds since the epoch, or 0 where it
/// cannot be read.
pub fn published_at(text: &str) -> (out: i64)
    ensures
        out == published(text@),
{
    match parse_rfc3339(text) {
        Some(seconds) => seconds,
        None => 0,
    }
}

/// The chapter that an item gives, where the item is a chapter.
pub fn map_result_to_chapter(data: Relationship) -> (out: Option<ChapterInfo>)
    ensures
        out.deep_view() == chapter_of(data),
{
    chapter_from(&data)
}

/// The chapter that an item gives, where the item is a chapter.
fn chapter_from(data: &Relationship) -> (out: Option<ChapterInfo>)
    ensures
        out.deep_view() == chapter_of(*data),
{
    match data {
        Relationship::Chapter { id, attributes, relationships } => {
            let scanlator = find_group_name(relationships);
            let nothing: Option<String> = None;
            let mut title = make_chapter_title(&nothing, &nothing, &nothing);
            let mut number = String::new();
            let mut uploaded: i64 = 0;
            match attributes {
                Some(a) => {
                    title = make_chapter_title(&a.title, &a.volume, &a.chapter);
                    match &a.chapter {
                        Some(n) => {
                            number = n.clone();
                        },
                        None => {},
                    }
                    uploaded = published_at(a.publish_at.as_str());
                },
                None => {},
            }
            Some(
                ChapterInfo {
                    source_id: ID,
                    title,
                    path: glue("/chapter/", id.as_str()),
                    number,
                    scanlator: Some(scanlator),
                    uploaded,
                },
            )
        },
        _ => None,
    }
}

/// The addresses of the pages of a chapter.
pub fn map_result_to_pages(data: ResultsAtHome) -> (out: Vec<String>)
    ensures
        out.deep_view() == pages_of(data),
{
    let mut out: Vec<String> = Vec::new();
    let mut i: usize = 0;
    while i < data.chapter.data.len()
        invariant
            0 <= i <= data.chapter.data.len(),
            out.len() == i,
            forall|j: int| 0 <= j < i ==> out@[j]@ == pages_of(data)[j],
        decreases data.chapter.data.len() - i,
    {
        let mut page = glue(data.base_url.as_str(), "/data/");
        page.append(data.chapter.hash.as_str());
        page.append("/");
        page.append(data.chapter.data[i].as_str());
        out.push(page);
        i += 1;
    }
    proof {
        assert(out.deep_view() =~= pages_of(data));
    }
    out
}

/// The entries that the manga among the items give, in order.
fn collect_mangas(items: &Vec<Relationship>) -> (out: Result<Vec<MangaInfo>, SourceError>)
    ensures
        gives(out, mangas_of(items@)),
{
    let mut out: Vec<MangaInfo> = Vec::new();
    let mut i: usize = 0;
    proof {
        assert(items@.take(0) =~= Seq::empty());
        assert(out.deep_view() =~= Seq::empty());
    }
    while i < items.len()
        invariant
            0 <= i <= items.len(),
            mangas_of(items@.take(i as int)) == Ok::<Seq<MangaInfoView>, SourceError>(
                out.deep_view(),
            ),
        decreases items.len() - i,
    {
        proof {
            assert(items@.take(i as int + 1).drop_last() =~= items@.take(i as int));
        }
        if is_manga(&items[i]) {
            match manga_from(&items[i]) {
                Some(entry) => {
                    let ghost was = out.deep_view();
                    out.push(entry);
                    proof {
                        assert(out.deep_view() =~= was.push(entry.deep_view()));
                    }
                },
                None => {
                    proof {
                        lemma_mangas_fail(items@, i as nat + 1, items@.len());
                        assert(items@.take(items.len() as int) =~= items@);
                    }
                    return Err(SourceError::ParseError(Cause::Title));
                },
            }
        }
        i += 1;
    }
    proof {
        assert(items@.take(items.len() as int) =~= items@);
    }
    Ok(out)
}

/// The chapters that the chapters among the items give, in order.
fn collect_chapters(items: &Vec<Relationship>) -> (out: Vec<ChapterInfo>)
    ensures
        out.deep_view() == chapters_of(items@),
{
    let mut out: Vec<ChapterInfo> = Vec::new();
    let mut i: usize = 0;
    proof {
        assert(items@.take(0) =~= Seq::empty());
        assert(out.deep_view() =~= Seq::empty());
    }
    while i < items.len()
        invariant
            0 <= i <= items.len(),
            out.deep_view() == chapters_of(items@.take(i as int)),
        decreases items.len() - i,
    {
        proof {
            assert(items@.take(i as int + 1).drop_last() =~= items@.take(i as int));
        }
        match chapter_from(&items[i]) {
            Some(chapter) => {
                let ghost was = out.deep_view();
                out.push(chapter);
                proof {
                    assert(out.deep_view() =~= was.push(chapter.deep_view()));
                }
            },
            None => {},
        }
        i += 1;
    }
    proof {
        assert(items@.take(items.len() as int) =~= items@);
    }
    out
}

/// The source with its stored preferences.
#[derive(Debug)]
pub struct Mangadex {
    preferences: Vec<Input>,
}

impl Mangadex {
    /// The stored preferences.
    pub closed spec fn stored(&self) -> Seq<InputView> {
        self.preferences.deep_view()
    }

    /// A new instance; the source has no preferences.
    pub fn new() -> (out: Mangadex)
        ensures
            out.stored() == Seq::<InputView>::empty(),
    {
        let out = Mangadex { preferences: Vec::new() };
        proof {
            assert(out.preferences.deep_view() =~= Seq::empty());
        }
        out
    }

    /// Merges `preferences` into the stored ones, by name and kind.
    pub fn set_preferences(&mut self, preferences: Vec<Input>)
        ensures
            final(self).stored() == merged(old(self).stored(), preferences.deep_view()),
    {
        merge_preferences(&mut self.preferences, preferences);
    }

    /// The stored preferences.
    pub fn get_preferences(&self) -> (out: Vec<Input>)
        ensures
            out.deep_view() == self.stored(),
    {
        clone_inputs(&self.preferences)
    }

    /// The filters a search understands.
    pub fn filter_list(&self) -> (out: Vec<Input>)
        ensures
            out.deep_view() == filters(),
    {
        filter_list()
    }

    /// What the source is.
    pub fn get_source_info(&self) -> (out: SourceInfo)
        ensures
            out.deep_view() == (SourceInfoView {
                id: ID,
                name: NAME@,
                url: URL@,
                version: VERSION@,
                icon: "https://mangadex.org/favicon.ico"@,
                languages: LangView::All,
                nsfw: true,
            }),
    {
        SourceInfo {
            id: ID,
            name: NAME.to_owned(),
            url: URL.to_owned(),
            version: VERSION,
            icon: "https://mangadex.org/favicon.ico",
            languages: Lang::All,
            nsfw: true,
        }
    }

    /// The request for one page of the listing that `query` asks for.
    pub fn list_request(&self, page: i64, query: MangaList) -> (out: Request)
        ensures
            out.deep_view() == plain_get(list_url(page, query.deep_view())),
    {
        let index = clamp_page(page);
        let offset: u128 = (index as u128 - 1) * 20;
        let paged = MangaList {
            limit: PAGE_SIZE,
            offset,
            title: query.title,
            content_rating: query.content_rating,
            order: query.order,
        };
        let mut url = glue(URL, "/manga?");
        url.append(paged.to_query_string().as_str());
        get(url)
    }

    /// The request for one page of the most followed manga.
    pub fn popular_request(&self, page: i64) -> (out: Request)
        ensures
            out.deep_view() == plain_get(list_url(page, popular())),
    {
        let query = MangaList {
            limit: 10,
            offset: 0,
            title: None,
            content_rating: Vec::new(),
            order: Some(
                ListOrder { followed_count: Some(Order::Desc), latest_uploaded_chapter: None },
            ),
        };
        self.list_request(page, query)
    }

    /// The request for one page of the newest manga.
    pub fn latest_request(&self, page: i64) -> (out: Request)
        ensures
            out.deep_view() == plain_get(list_url(page, everything())),
    {
        self.list_request(page, MangaList::default())
    }

    /// The request for one page of a search, by filters or else by a free
    /// text. With neither, the arguments are invalid.
    pub fn search_request(&self, page: i64, query: Option<String>, filters: Option<Vec<Input>>) -> (out:
        Result<Request, SourceError>)
        ensures
            match search_query(query.deep_view(), filters.deep_view()) {
                Ok(asked) => out is Ok && out->Ok_0.deep_view() == plain_get(list_url(page, asked)),
                Err(e) => out == Err::<Request, SourceError>(e),
            },
            out == Err::<Request, SourceError>(SourceError::InvalidArgument) <==> (query is None
                && filters is None),
    {
        let asked = match filters {
            Some(list) => MangaList::from_filters(&list),
            None => match query {
                Some(title) => {
                    let mut ratings: Vec<Rating> = Vec::new();
                    ratings.push(Rating::Safe);
                    ratings.push(Rating::Suggestive);
                    ratings.push(Rating::Erotica);
                    ratings.push(Rating::Pornographic);
                    proof {
                        assert(ratings@ =~= titled(title@).content_rating);
                    }
                    MangaList {
                        limit: 10,
                        offset: 0,
                        title: Some(title),
                        content_rating: ratings,
                        order: None,
                    }
                },
                None => {
                    return Err(SourceError::InvalidArgument);
                },
            },
        };
        Ok(self.list_request(page, asked))
    }

    /// The request for the detail of the manga at `path`.
    pub fn detail_request(&self, path: &str) -> (out: Request)
        ensures
            out.deep_view() == plain_get(detail_url(path@)),
    {
        let mut url = glue(URL, path);
        url.append("?includes[]=author&includes[]=artist&includes[]=cover_art");
        get(url)
    }

    /// The request for the chapters of the manga at `path`.
    pub fn chapters_request(&self, path: &str) -> (out: Request)
        ensures
            out.deep_view() == plain_get(feed_url(path@)),
    {
        let mut url = glue(URL, path);
        url.append(
            "/feed?limit=500&contentRating[]=safe&contentRating[]=suggestive&contentRating[]=erotica&contentRating[]=pornographic&translatedLanguage[]=en&includes[]=scanlation_group",
        );
        get(url)
    }

    /// The request that asks for the server of the pages of the chapter at
    /// `path`.
    pub fn pages_request(&self, path: &str) -> (out: Request)
        ensures
            out.deep_view() == plain_get(at_home_url(path@)),
    {
        proof {
            reveal_strlit("");
            assert(""@ =~= Seq::<char>::empty());
        }
        let chapter = replace(path, "/chapter/", "");
        let mut url = glue(URL, "/at-home/server/");
        url.append(chapter.as_str());
        get(url)
    }

    /// The listing that an answer gives.
    pub fn parse_manga_list(&self, answer: Results) -> (out: Result<Vec<MangaInfo>, SourceError>)
        ensures
            gives(out, listing_of(answer)),
    {
        match &answer.data {
            Data::Multiple { data } => collect_mangas(data),
            Data::Single { .. } => Err(SourceError::ParseError(Cause::Shape)),
        }
    }

    /// The entry that an answer gives.
    pub fn parse_manga_detail(&self, answer: Results) -> (out: Result<MangaInfo, SourceError>)
        ensures
            gives(out, detail_of(answer)),
    {
        match &answer.data {
            Data::Single { data } => if is_manga(data) {
                match manga_from(data) {
                    Some(entry) => Ok(entry),
                    None => Err(SourceError::ParseError(Cause::Title)),
                }
            } else {
                Err(SourceError::NotFound)
            },
            Data::Multiple { .. } => Err(SourceError::ParseError(Cause::Shape)),
        }
    }

    /// The chapters that an answer gives.
    pub fn parse_chapters(&self, answer: Results) -> (out: Result<Vec<ChapterInfo>, SourceError>)
        ensures
            gives(out, feed_of(answer)),
    {
        match &answer.data {
            Data::Multiple { data } => Ok(collect_chapters(data)),
            Data::Single { .. } => Err(SourceError::ParseError(Cause::Shape)),
        }
    }

    /// The pages that an answer gives.
    pub fn parse_pages(&self, answer: ResultsAtHome) -> (out: Vec<String>)
        ensures
            out.deep_view() == pages_of(answer),
    {
        map_result_to_pages(answer)
    }
}

/// Two pages that follow each other ask for windows that follow each
/// other: the next page begins where the page ends, so no entry is asked
/// for twice.
pub proof fn lemma_pages_follow(page: i64, query: MangaListView)
    requires
        1 <= page < i64::MAX,
    ensures
        paged((page + 1) as i64, query).offset == paged(page, query).offset + paged(
            page,
            query,
        ).limit,
{
}

/// The path of a listed manga is the one its detail is asked by: the
/// request for that path names the manga by its id.
pub proof fn lemma_listed_path_resolves(item: Relationship)
    requires
        manga_of(item) is Some,
    ensures
        item is Manga,
        detail_url(manga_of(item)->0.path) == URL@ + ("/manga/"@ + item->Manga_id@)
            + "?includes[]=author&includes[]=artist&includes[]=cover_art"@,
{
}

/// A chapter is never without its time: where the time of publication is
/// missing or cannot be read, the chapter is there with the time 0.
pub proof fn lemma_chapter_time_never_fails(item: Relationship)
    requires
        item is Chapter,
    ensures
        chapter_of(item) is Some,
        item->Chapter_attributes is None ==> chapter_of(item)->0.uploaded == 0,
        item->Chapter_attributes is Some && rfc3339_timestamp(
            item->Chapter_attributes->0.publish_at@,
        ) is None ==> chapter_of(item)->0.uploaded == 0,
{
}

/// A manga is an entry as soon as it tells a title: one without a title
/// gives no entry, its detail fails for the title and so does every listing
/// it stands in; one with a title gives an entry whatever else is missing,
/// with no genre, no status and no description where it has no attributes
/// for them.
pub proof fn lemma_manga_needs_title(item: Relationship)
    requires
        item is Manga,
    ensures
        described(item) is Some,
        described(item)->0.title.len() == 0 ==> manga_of(item) is None,
        described(item)->0.title.len() > 0 ==> manga_of(item) == described(item),
        item->Manga_attributes is None ==> manga_of(item) is None,
        manga_of(item) is Some && item->Manga_relationships@.len() == 0 ==> manga_of(
            item,
        )->0.author.len() == 0,
{
}

} // verus!

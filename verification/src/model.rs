//! The entities every source gives: what a source is, a catalog entry, a
//! chapter.

use vstd::prelude::*;

verus! {

/// The languages a source offers.
#[derive(Debug)]
pub enum Lang {
    /// Every language.
    All,
    /// One language, by its code.
    Single(String),
    /// Several languages, by their codes.
    Multi(Vec<String>),
}

/// What a `Lang` holds.
pub enum LangView {
    All,
    Single(Seq<char>),
    Multi(Seq<Seq<char>>),
}

/// The identity of one source.
#[derive(Debug)]
pub struct SourceInfo {
    pub id: i64,
    pub name: String,
    pub url: String,
    pub version: &'static str,
    pub icon: &'static str,
    pub languages: Lang,
    pub nsfw: bool,
}

/// What a `SourceInfo` holds.
pub struct SourceInfoView {
    pub id: i64,
    pub name: Seq<char>,
    pub url: Seq<char>,
    pub version: Seq<char>,
    pub icon: Seq<char>,
    pub languages: LangView,
    pub nsfw: bool,
}

/// One entry of a catalog. `path` is relative to the source's address and
/// names the entry in every later call.
#[derive(Debug)]
pub struct MangaInfo {
    pub source_id: i64,
    pub title: String,
    pub author: Vec<String>,
    pub genre: Vec<String>,
    pub status: Option<String>,
    pub description: Option<String>,
    pub path: String,
    pub cover_url: String,
}

/// What a `MangaInfo` holds.
pub struct MangaInfoView {
    pub source_id: i64,
    pub title: Seq<char>,
    pub author: Seq<Seq<char>>,
    pub genre: Seq<Seq<char>>,
    pub status: Option<Seq<char>>,
    pub description: Option<Seq<char>>,
    pub path: Seq<char>,
    pub cover_url: Seq<char>,
}

/// One chapter of an entry. `number` is the chapter's number as the source
/// writes it, in decimal and possibly with a fraction; an empty text stands
/// for zero. `uploaded` counts seconds since the epoch, and is 0 where the
/// time is not known.
#[derive(Debug)]
pub struct ChapterInfo {
    pub source_id: i64,
    pub title: String,
    pub path: String,
    pub number: String,
    pub scanlator: Option<String>,
    pub uploaded: i64,
}

/// What a `ChapterInfo` holds.
pub struct ChapterInfoView {
    pub source_id: i64,
    pub title: Seq<char>,
    pub path: Seq<char>,
    pub number: Seq<char>,
    pub scanlator: Option<Seq<char>>,
    pub uploaded: i64,
}

impl DeepView for Lang {
    type V = LangView;

    open spec fn deep_view(&self) -> LangView {
        match self {
            Lang::All => LangView::All,
            Lang::Single(code) => LangView::Single(code@),
            Lang::Multi(codes) => LangView::Multi(codes.deep_view()),
        }
    }
}

impl DeepView for SourceInfo {
    type V = SourceInfoView;

    open spec fn deep_view(&self) -> SourceInfoView {
        SourceInfoView {
            id: self.id,
            name: self.name@,
            url: self.url@,
            version: self.version@,
            icon: self.icon@,
            languages: self.languages.deep_view(),
            nsfw: self.nsfw,
        }
    }
}

impl DeepView for MangaInfo {
    type V = MangaInfoView;

    open spec fn deep_view(&self) -> MangaInfoView {
        MangaInfoView {
            source_id: self.source_id,
            title: self.title@,
            author: self.author.deep_view(),
            genre: self.genre.deep_view(),
            status: self.status.deep_view(),
            description: self.description.deep_view(),
            path: self.path@,
            cover_url: self.cover_url@,
        }
    }
}

impl DeepView for ChapterInfo {
    type V = ChapterInfoView;

    open spec fn deep_view(&self) -> ChapterInfoView {
        ChapterInfoView {
            source_id: self.source_id,
            title: self.title@,
            path: self.path@,
            number: self.number@,
            scanlator: self.scanlator.deep_view(),
            uploaded: self.uploaded,
        }
    }
}

} // verus!

//! What the MangaDex interface answers: the items of its answers, as far as
//! the source reads them.

use vstd::prelude::*;

verus! {

/// One text in one language.
#[derive(Debug)]
pub struct Localized {
    pub language: String,
    pub text: String,
}

/// How far the publication of a manga has come.
#[derive(Debug, Clone, Copy, PartialEq, Eq, Structural)]
pub enum Status {
    Ongoing,
    Completed,
    Hiatus,
    Cancelled,
}

/// What the interface tells of a manga.
#[derive(Debug)]
pub struct MangaAttributes {
    /// The title in each language, in the order of the answer.
    pub title: Vec<Localized>,
    /// The description in each language, in the order of the answer.
    pub description: Vec<Localized>,
    pub status: Option<Status>,
    pub tags: Vec<Relationship>,
}

/// What the interface tells of a chapter. `publish_at` is the time of
/// publication as the answer writes it.
#[derive(Debug)]
pub struct ChapterAttributes {
    pub volume: Option<String>,
    pub chapter: Option<String>,
    pub title: Option<String>,
    pub publish_at: String,
}

/// What the interface tells of an author, an artist or a group.
#[derive(Debug)]
pub struct NameAttributes {
    pub name: String,
}

/// What the interface tells of a tag: its name in each language.
#[derive(Debug)]
pub struct TagAttributes {
    pub name: Vec<Localized>,
}

/// What the interface tells of a cover.
#[derive(Debug)]
pub struct CoverAttributes {
    pub file_name: String,
}

/// One item of an answer, by its kind. Items name the items they are
/// related to; of those, the attributes are present where the request asked
/// to include them.
#[derive(Debug)]
#[allow(inconsistent_fields)]
pub enum Relationship {
    Manga { id: String, attributes: Option<MangaAttributes>, relationships: Vec<Relationship> },
    Chapter { id: String, attributes: Option<ChapterAttributes>, relationships: Vec<Relationship> },
    Author { id: String, attributes: Option<NameAttributes> },
    Artist { id: String, attributes: Option<NameAttributes> },
    Tag { id: String, attributes: Option<TagAttributes> },
    CoverArt { id: String, attributes: Option<CoverAttributes> },
    ScanlationGroup { id: String, attributes: Option<NameAttributes> },
    /// An item of a kind the source does not read.
    Other { id: String },
}

/// The body of an answer: one item, or a list of them.
#[derive(Debug)]
#[allow(inconsistent_fields)]
pub enum Data {
    Single { data: Relationship },
    Multiple { data: Vec<Relationship> },
}

/// An answer of the interface.
#[derive(Debug)]
pub struct Results {
    pub data: Data,
}

/// The files of a chapter on a server.
#[derive(Debug)]
pub struct AtHomeChapter {
    pub hash: String,
    pub data: Vec<String>,
}

/// The answer that names the server of a chapter's pages.
#[derive(Debug)]
pub struct ResultsAtHome {
    pub base_url: String,
    pub chapter: AtHomeChapter,
}

} // verus!

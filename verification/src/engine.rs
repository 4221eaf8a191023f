//! The extraction rules shared by all sources: how the entities are read out
//! of what the selectors of a source match in a document.

use crate::error::{Cause, SourceError};
use crate::clock::{
    date_timestamp_of, parse_date, parse_rfc3339, rfc3339_timestamp,
};
use crate::markup::{
    matched, nested_attrs, nested_texts, select_attrs, select_nested_attrs, select_nested_texts,
    select_texts, selected_attrs, selected_texts,
};
use crate::model::{ChapterInfo, ChapterInfoView, MangaInfo, MangaInfoView};
use crate::pattern::{captured, captures};
use crate::text::{
    chars_of, glue, join, joined, lemma_replaced_absent, occurs_in, replace,
    replaced, string_of, trim, trimmed, trimmed_end, trimmed_start, white_space,
};
use vstd::prelude::*;

verus! {

/// Whether `out` is the outcome `expected`, taken by its view.
pub open spec fn gives<T: DeepView>(
    out: Result<T, SourceError>,
    expected: Result<T::V, SourceError>,
) -> bool {
    match out {
        Ok(value) => expected == Ok::<T::V, SourceError>(value.deep_view()),
        Err(e) => expected == Err::<T::V, SourceError>(e),
    }
}

/// The first value that is present.
pub open spec fn first_present(values: Seq<Option<Seq<char>>>) -> Option<Seq<char>>
    decreases values.len(),
{
    if values.len() == 0 {
        None
    } else if values[0] is Some {
        values[0]
    } else {
        first_present(values.skip(1))
    }
}

/// The first text of the first element that has a text.
pub open spec fn first_text(elements: Seq<Seq<Seq<char>>>) -> Option<Seq<char>>
    decreases elements.len(),
{
    if elements.len() == 0 {
        None
    } else if elements[0].len() > 0 {
        Some(elements[0][0])
    } else {
        first_text(elements.skip(1))
    }
}

/// The texts of all elements, element after element.
pub open spec fn all_texts(elements: Seq<Seq<Seq<char>>>) -> Seq<Seq<char>>
    decreases elements.len(),
{
    if elements.len() == 0 {
        Seq::empty()
    } else {
        all_texts(elements.drop_last()) + elements.last()
    }
}

/// The first text of each element that has a text.
pub open spec fn leading_texts(elements: Seq<Seq<Seq<char>>>) -> Seq<Seq<char>>
    decreases elements.len(),
{
    if elements.len() == 0 {
        Seq::empty()
    } else if elements.last().len() > 0 {
        leading_texts(elements.drop_last()).push(elements.last()[0])
    } else {
        leading_texts(elements.drop_last())
    }
}

/// The texts of one element, one after the other.
pub open spec fn whole_text(element: Seq<Seq<char>>) -> Seq<char> {
    joined(element, Seq::empty())
}

/// An address as a path: without `base`, where a base is given.
pub open spec fn relative(address: Seq<char>, base: Option<Seq<char>>) -> Seq<char> {
    match base {
        Some(b) => replaced(address, b, Seq::empty()),
        None => address,
    }
}

/// The first value that is present.
pub fn pick_first(values: &Vec<Option<String>>) -> (out: Option<String>)
    ensures
        out.deep_view() == first_present(values.deep_view()),
{
    let ghost all = values.deep_view();
    let mut i: usize = 0;
    proof {
        assert(all.skip(0) =~= all);
    }
    while i < values.len()
        invariant
            0 <= i <= values.len(),
            all == values.deep_view(),
            first_present(all) == first_present(all.skip(i as int)),
        decreases values.len() - i,
    {
        proof {
            assert(all.skip(i as int).skip(1) =~= all.skip(i as int + 1));
            assert(all.skip(i as int)[0] == values@[i as int].deep_view());
        }
        match &values[i] {
            Some(value) => {
                return Some(value.clone());
            },
            None => {},
        }
        i += 1;
    }
    None
}

/// The first text of the first element that has a text.
pub fn pick_first_text(elements: &Vec<Vec<String>>) -> (out: Option<String>)
    ensures
        out.deep_view() == first_text(elements.deep_view()),
{
    let ghost all = elements.deep_view();
    let mut i: usize = 0;
    proof {
        assert(all.skip(0) =~= all);
    }
    while i < elements.len()
        invariant
            0 <= i <= elements.len(),
            all == elements.deep_view(),
            first_text(all) == first_text(all.skip(i as int)),
        decreases elements.len() - i,
    {
        proof {
            assert(all.skip(i as int).skip(1) =~= all.skip(i as int + 1));
            assert(all.skip(i as int)[0] == elements@[i as int].deep_view());
        }
        if elements[i].len() > 0 {
            proof {
                assert(elements@[i as int].deep_view()[0] == elements@[i as int]@[0]@);
            }
            return Some(elements[i][0].clone());
        }
        i += 1;
    }
    None
}

/// The texts of all elements, element after element.
pub fn collect_texts(elements: &Vec<Vec<String>>) -> (out: Vec<String>)
    ensures
        out.deep_view() == all_texts(elements.deep_view()),
{
    let ghost all = elements.deep_view();
    let mut out: Vec<String> = Vec::new();
    let mut i: usize = 0;
    proof {
        assert(out.deep_view() =~= all_texts(all.take(0)));
    }
    while i < elements.len()
        invariant
            0 <= i <= elements.len(),
            all == elements.deep_view(),
            out.deep_view() == all_texts(all.take(i as int)),
        decreases elements.len() - i,
    {
        let element = &elements[i];
        let ghost before = out.deep_view();
        let mut j: usize = 0;
        proof {
            assert(element.deep_view().take(0) =~= Seq::empty());
            assert(before + element.deep_view().take(0) =~= before);
        }
        while j < element.len()
            invariant
                0 <= j <= element.len(),
                out.deep_view() == before + element.deep_view().take(j as int),
            decreases element.len() - j,
        {
            let ghost was = out.deep_view();
            out.push(element[j].clone());
            proof {
                assert(out.deep_view() =~= was.push(element@[j as int]@));
                assert(element.deep_view().take(j as int + 1) =~= element.deep_view().take(
                    j as int,
                ).push(element@[j as int]@));
                assert(out.deep_view() =~= before + element.deep_view().take(j as int + 1));
            }
            j += 1;
        }
        proof {
            assert(element.deep_view().take(element.len() as int) =~= element.deep_view());
            assert(all.take(i as int + 1).drop_last() =~= all.take(i as int));
            assert(all.take(i as int + 1).last() == element.deep_view());
        }
        i += 1;
    }
    proof {
        assert(all.take(elements.len() as int) =~= all);
    }
    out
}

/// The first text of each element that has a text.
pub fn collect_leading_texts(elements: &Vec<Vec<String>>) -> (out: Vec<String>)
    ensures
        out.deep_view() == leading_texts(elements.deep_view()),
{
    let ghost all = elements.deep_view();
    let mut out: Vec<String> = Vec::new();
    let mut i: usize = 0;
    proof {
        assert(out.deep_view() =~= leading_texts(all.take(0)));
    }
    while i < elements.len()
        invariant
            0 <= i <= elements.len(),
            all == elements.deep_view(),
            out.deep_view() == leading_texts(all.take(i as int)),
        decreases elements.len() - i,
    {
        proof {
            assert(all.take(i as int + 1).drop_last() =~= all.take(i as int));
            assert(all.take(i as int + 1).last() == elements@[i as int].deep_view());
        }
        if elements[i].len() > 0 {
            let ghost was = out.deep_view();
            out.push(elements[i][0].clone());
            proof {
                assert(elements@[i as int].deep_view()[0] == elements@[i as int]@[0]@);
                assert(out.deep_view() =~= was.push(elements@[i as int]@[0]@));
            }
        }
        i += 1;
    }
    proof {
        assert(all.take(elements.len() as int) =~= all);
    }
    out
}

/// The texts of one element, one after the other.
pub fn collect_whole_text(element: &Vec<String>) -> (out: String)
    ensures
        out@ == whole_text(element.deep_view()),
{
    proof {
        reveal_strlit("");
        assert(""@ =~= Seq::<char>::empty());
    }
    join(element, "")
}

/// An address as a path: without `base`, where a base is given.
pub fn make_relative(address: String, base: Option<&str>) -> (out: String)
    ensures
        out@ == relative(address@, base.deep_view()),
{
    match base {
        Some(b) => {
            proof {
                reveal_strlit("");
                assert(""@ =~= Seq::<char>::empty());
            }
            replace(address.as_str(), b, "")
        },
        None => address,
    }
}

/// Where an element of a document is found, and which of its attributes is
/// read.
#[derive(Debug)]
pub struct AttrRule {
    pub selector: String,
    pub attr: String,
}

/// What an `AttrRule` holds.
pub struct AttrRuleView {
    pub selector: Seq<char>,
    pub attr: Seq<char>,
}

impl DeepView for AttrRule {
    type V = AttrRuleView;

    open spec fn deep_view(&self) -> AttrRuleView {
        AttrRuleView { selector: self.selector@, attr: self.attr@ }
    }
}

/// How a source writes a listing: `item` matches the entries; inside an
/// entry `cover` finds the image address, `path` the link to the entry and
/// `title` the element holding its title. Where `base` is given, it is cut
/// out of the link to make the path.
#[derive(Debug)]
pub struct ListingRule {
    pub item: String,
    pub cover: AttrRule,
    pub path: AttrRule,
    pub title: String,
    pub base: Option<String>,
}

/// What a `ListingRule` holds.
pub struct ListingRuleView {
    pub item: Seq<char>,
    pub cover: AttrRuleView,
    pub path: AttrRuleView,
    pub title: Seq<char>,
    pub base: Option<Seq<char>>,
}

impl DeepView for ListingRule {
    type V = ListingRuleView;

    open spec fn deep_view(&self) -> ListingRuleView {
        ListingRuleView {
            item: self.item@,
            cover: self.cover.deep_view(),
            path: self.path.deep_view(),
            title: self.title@,
            base: self.base.deep_view(),
        }
    }
}

/// The entry that one item of a listing gives: its cover is the first cover
/// address found, its path the first link found, its title the first text
/// found. An item that lacks one of the three is a failure, named after the
/// first one it lacks in that order.
pub open spec fn listed_item(
    source_id: i64,
    cover: Seq<Option<Seq<char>>>,
    path: Seq<Option<Seq<char>>>,
    title: Seq<Seq<Seq<char>>>,
    base: Option<Seq<char>>,
) -> Result<MangaInfoView, SourceError> {
    if first_present(cover) is None {
        Err(SourceError::ParseError(Cause::Cover))
    } else if first_present(path) is None {
        Err(SourceError::ParseError(Cause::Path))
    } else if first_text(title) is None {
        Err(SourceError::ParseError(Cause::Title))
    } else {
        Ok(
            MangaInfoView {
                source_id,
                title: first_text(title)->0,
                author: Seq::empty(),
                genre: Seq::empty(),
                status: None,
                description: None,
                path: relative(first_present(path)->0, base),
                cover_url: first_present(cover)->0,
            },
        )
    }
}

/// The entries of the first `n` items of a listing, in order, or the
/// failure of the first item that fails.
pub open spec fn listed_first(
    source_id: i64,
    covers: Seq<Seq<Option<Seq<char>>>>,
    paths: Seq<Seq<Option<Seq<char>>>>,
    titles: Seq<Seq<Seq<Seq<char>>>>,
    base: Option<Seq<char>>,
    n: nat,
) -> Result<Seq<MangaInfoView>, SourceError>
    decreases n,
{
    if n == 0 {
        Ok(Seq::empty())
    } else {
        match listed_first(source_id, covers, paths, titles, base, (n - 1) as nat) {
            Err(e) => Err(e),
            Ok(before) => match listed_item(
                source_id,
                covers[n - 1],
                paths[n - 1],
                titles[n - 1],
                base,
            ) {
                Err(e) => Err(e),
                Ok(entry) => Ok(before.push(entry)),
            },
        }
    }
}

/// The entries of a listing, given for each item what its cover, path and
/// title selectors matched. No entry is left out: one failing item fails
/// the listing. Selections that disagree on the number of items do not have
/// the shape of a listing.
pub open spec fn listed(
    source_id: i64,
    covers: Seq<Seq<Option<Seq<char>>>>,
    paths: Seq<Seq<Option<Seq<char>>>>,
    titles: Seq<Seq<Seq<Seq<char>>>>,
    base: Option<Seq<char>>,
) -> Result<Seq<MangaInfoView>, SourceError> {
    if covers.len() != paths.len() || covers.len() != titles.len() {
        Err(SourceError::ParseError(Cause::Shape))
    } else {
        listed_first(source_id, covers, paths, titles, base, covers.len())
    }
}

/// The listing that the document `html` holds under `rule`.
pub open spec fn listing_in(source_id: i64, html: Seq<char>, rule: ListingRuleView) -> Result<
    Seq<MangaInfoView>,
    SourceError,
> {
    match (
        nested_attrs(html, rule.item, rule.cover.selector, rule.cover.attr),
        nested_attrs(html, rule.item, rule.path.selector, rule.path.attr),
        nested_texts(html, rule.item, rule.title),
    ) {
        (Some(covers), Some(paths), Some(titles)) => listed(
            source_id,
            covers,
            paths,
            titles,
            rule.base,
        ),
        _ => Err(SourceError::ParseError(Cause::Selector)),
    }
}

/// The entry that one item of a listing gives.
fn list_item(
    source_id: i64,
    cover: &Vec<Option<String>>,
    path: &Vec<Option<String>>,
    title: &Vec<Vec<String>>,
    base: Option<&str>,
) -> (out: Result<MangaInfo, SourceError>)
    ensures
        gives(
            out,
            listed_item(
                source_id,
                cover.deep_view(),
                path.deep_view(),
                title.deep_view(),
                base.deep_view(),
            ),
        ),
{
    let cover_url = match pick_first(cover) {
        Some(c) => c,
        None => {
            return Err(SourceError::ParseError(Cause::Cover));
        },
    };
    let link = match pick_first(path) {
        Some(p) => p,
        None => {
            return Err(SourceError::ParseError(Cause::Path));
        },
    };
    let title = match pick_first_text(title) {
        Some(t) => t,
        None => {
            return Err(SourceError::ParseError(Cause::Title));
        },
    };
    let entry = MangaInfo {
        source_id,
        title,
        author: Vec::new(),
        genre: Vec::new(),
        status: None,
        description: None,
        path: make_relative(link, base),
        cover_url,
    };
    proof {
        assert(entry.author.deep_view() =~= Seq::empty());
        assert(entry.genre.deep_view() =~= Seq::empty());
    }
    Ok(entry)
}

/// The entries of a listing, given for each item what its cover, path and
/// title selectors matched.
pub fn listing_from(
    source_id: i64,
    covers: &Vec<Vec<Option<String>>>,
    paths: &Vec<Vec<Option<String>>>,
    titles: &Vec<Vec<Vec<String>>>,
    base: Option<&str>,
) -> (out: Result<Vec<MangaInfo>, SourceError>)
    ensures
        gives(
            out,
            listed(
                source_id,
                covers.deep_view(),
                paths.deep_view(),
                titles.deep_view(),
                base.deep_view(),
            ),
        ),
        out matches Ok(list) ==> list.len() == covers.len(),
        out == Err::<Vec<MangaInfo>, SourceError>(SourceError::ParseError(Cause::Shape)) <==> (
        covers.len() != paths.len() || covers.len() != titles.len()),
{
    if covers.len() != paths.len() || covers.len() != titles.len() {
        return Err(SourceError::ParseError(Cause::Shape));
    }
    let mut out: Vec<MangaInfo> = Vec::new();
    let mut i: usize = 0;
    proof {
        assert(out.deep_view() =~= Seq::empty());
    }
    while i < covers.len()
        invariant
            0 <= i <= covers.len(),
            covers.len() == paths.len(),
            covers.len() == titles.len(),
            listed_first(
                source_id,
                covers.deep_view(),
                paths.deep_view(),
                titles.deep_view(),
                base.deep_view(),
                i as nat,
            ) == Ok::<Seq<MangaInfoView>, SourceError>(out.deep_view()),
            out.len() == i,
        decreases covers.len() - i,
    {
        proof {
            assert(covers.deep_view()[i as int] == covers@[i as int].deep_view());
            assert(paths.deep_view()[i as int] == paths@[i as int].deep_view());
            assert(titles.deep_view()[i as int] == titles@[i as int].deep_view());
        }
        match list_item(source_id, &covers[i], &paths[i], &titles[i], base) {
            Ok(entry) => {
                let ghost was = out.deep_view();
                out.push(entry);
                proof {
                    assert(out.deep_view() =~= was.push(entry.deep_view()));
                }
            },
            Err(e) => {
                proof {
                    lemma_listed_first_fails(
                        source_id,
                        covers.deep_view(),
                        paths.deep_view(),
                        titles.deep_view(),
                        base.deep_view(),
                        i as nat + 1,
                        covers.len() as nat,
                    );
                }
                return Err(e);
            },
        }
        i += 1;
    }
    Ok(out)
}

/// A failure among the first items is the failure of every longer listing.
proof fn lemma_listed_first_fails(
    source_id: i64,
    covers: Seq<Seq<Option<Seq<char>>>>,
    paths: Seq<Seq<Option<Seq<char>>>>,
    titles: Seq<Seq<Seq<Seq<char>>>>,
    base: Option<Seq<char>>,
    n: nat,
    m: nat,
)
    requires
        n <= m,
        listed_first(source_id, covers, paths, titles, base, n) is Err,
    ensures
        listed_first(source_id, covers, paths, titles, base, m) == listed_first(
            source_id,
            covers,
            paths,
            titles,
            base,
            n,
        ),
    decreases m,
{
    if n < m {
        lemma_listed_first_fails(source_id, covers, paths, titles, base, n, (m - 1) as nat);
    }
}

/// The listing that the document `html` holds under `rule`.
pub fn read_listing(source_id: i64, html: &str, rule: &ListingRule) -> (out: Result<
    Vec<MangaInfo>,
    SourceError,
>)
    ensures
        gives(out, listing_in(source_id, html@, rule.deep_view())),
        out matches Ok(list) ==> list.len() == matched(html@, rule.item@),
        out != Err::<Vec<MangaInfo>, SourceError>(SourceError::ParseError(Cause::Shape)),
{
    let covers = select_nested_attrs(
        html,
        rule.item.as_str(),
        rule.cover.selector.as_str(),
        rule.cover.attr.as_str(),
    );
    let paths = select_nested_attrs(
        html,
        rule.item.as_str(),
        rule.path.selector.as_str(),
        rule.path.attr.as_str(),
    );
    let titles = select_nested_texts(html, rule.item.as_str(), rule.title.as_str());
    let base: Option<&str> = match &rule.base {
        Some(b) => Some(b.as_str()),
        None => None,
    };
    match (covers, paths, titles) {
        (Some(c), Some(p), Some(t)) => listing_from(source_id, &c, &p, &t, base),
        _ => Err(SourceError::ParseError(Cause::Selector)),
    }
}

/// One piece of a rewritten address: a fixed text, or the text that a group
/// of the pattern took.
#[derive(Debug)]
pub enum Piece {
    Literal(String),
    Group(usize),
}

/// What a `Piece` holds.
pub enum PieceView {
    Literal(Seq<char>),
    Group(usize),
}

impl DeepView for Piece {
    type V = PieceView;

    open spec fn deep_view(&self) -> PieceView {
        match self {
            Piece::Literal(s) => PieceView::Literal(s@),
            Piece::Group(k) => PieceView::Group(*k),
        }
    }
}

/// How the address of a small image becomes that of the full image: the
/// address is matched against `pattern`, and the pieces of `template` are
/// written one after the other.
#[derive(Debug)]
pub struct RewriteRule {
    pub pattern: String,
    pub template: Vec<Piece>,
}

/// What a `RewriteRule` holds.
pub struct RewriteRuleView {
    pub pattern: Seq<char>,
    pub template: Seq<PieceView>,
}

impl DeepView for RewriteRule {
    type V = RewriteRuleView;

    open spec fn deep_view(&self) -> RewriteRuleView {
        RewriteRuleView { pattern: self.pattern@, template: self.template.deep_view() }
    }
}

/// How a source writes the pages of a chapter: `image` finds the address in
/// each page element, and `rewrite`, where given, makes the page address of
/// it.
#[derive(Debug)]
pub struct PagesRule {
    pub image: AttrRule,
    pub rewrite: Option<RewriteRule>,
}

/// What a `PagesRule` holds.
pub struct PagesRuleView {
    pub image: AttrRuleView,
    pub rewrite: Option<RewriteRuleView>,
}

impl DeepView for PagesRule {
    type V = PagesRuleView;

    open spec fn deep_view(&self) -> PagesRuleView {
        PagesRuleView { image: self.image.deep_view(), rewrite: self.rewrite.deep_view() }
    }
}

/// The pieces of `template` written one after the other, each group piece
/// as the text of that group. `None` where a piece names a group that the
/// match does not have.
pub open spec fn rendered(template: Seq<PieceView>, groups: Seq<Option<Seq<char>>>) -> Option<
    Seq<char>,
>
    decreases template.len(),
{
    if template.len() == 0 {
        Some(Seq::empty())
    } else {
        match rendered(template.drop_last(), groups) {
            None => None,
            Some(before) => match template.last() {
                PieceView::Literal(s) => Some(before + s),
                PieceView::Group(k) => if k < groups.len() && groups[k as int] is Some {
                    Some(before + groups[k as int]->0)
                } else {
                    None
                },
            },
        }
    }
}

/// The page address that a match gives: a search that failed is a failure
/// of the pattern; no match, or a match without a group that the template
/// names, is a failure of the page.
pub open spec fn rewritten(
    found: Result<Option<Seq<Option<Seq<char>>>>, ()>,
    template: Seq<PieceView>,
) -> Result<Seq<char>, SourceError> {
    match found {
        Err(_) => Err(SourceError::ParseError(Cause::Pattern)),
        Ok(None) => Err(SourceError::ParseError(Cause::Page)),
        Ok(Some(groups)) => match rendered(template, groups) {
            Some(address) => Ok(address),
            None => Err(SourceError::ParseError(Cause::Page)),
        },
    }
}

/// The page address for the address found in a page element.
pub open spec fn page_address(address: Seq<char>, rewrite: Option<RewriteRuleView>) -> Result<
    Seq<char>,
    SourceError,
> {
    match rewrite {
        None => Ok(address),
        Some(rule) => rewritten(captured(rule.pattern, address), rule.template),
    }
}

/// The page addresses for the page elements, in order, one for each
/// element. An element without an address, and an address that cannot be
/// rewritten, fail the whole list.
pub open spec fn pages_of(addresses: Seq<Option<Seq<char>>>, rewrite: Option<RewriteRuleView>) -> Result<
    Seq<Seq<char>>,
    SourceError,
>
    decreases addresses.len(),
{
    if addresses.len() == 0 {
        Ok(Seq::empty())
    } else {
        match pages_of(addresses.drop_last(), rewrite) {
            Err(e) => Err(e),
            Ok(before) => match addresses.last() {
                None => Err(SourceError::ParseError(Cause::Page)),
                Some(address) => match page_address(address, rewrite) {
                    Err(e) => Err(e),
                    Ok(page) => Ok(before.push(page)),
                },
            },
        }
    }
}

/// The pages that the document `html` holds under `rule`.
pub open spec fn pages_in(html: Seq<char>, rule: PagesRuleView) -> Result<
    Seq<Seq<char>>,
    SourceError,
> {
    match selected_attrs(html, rule.image.selector, rule.image.attr) {
        None => Err(SourceError::ParseError(Cause::Selector)),
        Some(addresses) => pages_of(addresses, rule.rewrite),
    }
}

/// What a search gave, without the failure's details.
pub open spec fn found_view(
    found: Result<Option<Vec<Option<String>>>, fancy_regex::Error>,
) -> Result<Option<Seq<Option<Seq<char>>>>, ()> {
    match found {
        Ok(groups) => Ok(groups.deep_view()),
        Err(_) => Err(()),
    }
}

/// The pieces of `template` written one after the other.
pub fn render(template: &Vec<Piece>, groups: &Vec<Option<String>>) -> (out: Option<String>)
    ensures
        out.deep_view() == rendered(template.deep_view(), groups.deep_view()),
{
    let ghost pieces = template.deep_view();
    let mut out = String::new();
    let mut i: usize = 0;
    proof {
        assert(pieces.take(0) =~= Seq::empty());
    }
    while i < template.len()
        invariant
            0 <= i <= template.len(),
            pieces == template.deep_view(),
            rendered(pieces.take(i as int), groups.deep_view()) == Some(out@),
        decreases template.len() - i,
    {
        proof {
            assert(pieces.take(i as int + 1).drop_last() =~= pieces.take(i as int));
            assert(pieces.take(i as int + 1).last() == template@[i as int].deep_view());
        }
        match &template[i] {
            Piece::Literal(s) => {
                out.append(s.as_str());
            },
            Piece::Group(k) => {
                if *k < groups.len() {
                    proof {
                        assert(groups.deep_view()[*k as int] == groups@[*k as int].deep_view());
                    }
                    match &groups[*k] {
                        Some(text) => {
                            out.append(text.as_str());
                        },
                        None => {
                            proof {
                                lemma_rendered_fails(
                                    pieces,
                                    groups.deep_view(),
                                    i as nat + 1,
                                    pieces.len(),
                                );
                                assert(pieces.take(pieces.len() as int) =~= pieces);
                            }
                            return None;
                        },
                    }
                } else {
                    proof {
                        lemma_rendered_fails(pieces, groups.deep_view(), i as nat + 1, pieces.len());
                        assert(pieces.take(pieces.len() as int) =~= pieces);
                    }
                    return None;
                }
            },
        }
        i += 1;
    }
    proof {
        assert(pieces.take(template.len() as int) =~= pieces);
    }
    Some(out)
}

/// A template whose beginning cannot be written cannot be written.
proof fn lemma_rendered_fails(
    template: Seq<PieceView>,
    groups: Seq<Option<Seq<char>>>,
    n: nat,
    m: nat,
)
    requires
        n <= m <= template.len(),
        rendered(template.take(n as int), groups) is None,
    ensures
        rendered(template.take(m as int), groups) is None,
    decreases m,
{
    if n < m {
        lemma_rendered_fails(template, groups, n, (m - 1) as nat);
        assert(template.take(m as int).drop_last() =~= template.take(m - 1));
    }
}

/// The page address that a match gives.
pub fn rewrite_page(
    found: Result<Option<Vec<Option<String>>>, fancy_regex::Error>,
    template: &Vec<Piece>,
) -> (out: Result<String, SourceError>)
    ensures
        gives(out, rewritten(found_view(found), template.deep_view())),
        out matches Err(e) ==> e == SourceError::ParseError(Cause::Pattern) || e
            == SourceError::ParseError(Cause::Page),
{
    match found {
        Err(_) => Err(SourceError::ParseError(Cause::Pattern)),
        Ok(None) => Err(SourceError::ParseError(Cause::Page)),
        Ok(Some(groups)) => match render(template, &groups) {
            Some(address) => Ok(address),
            None => Err(SourceError::ParseError(Cause::Page)),
        },
    }
}

/// The page addresses for the page elements, in order.
pub fn pages_from(addresses: &Vec<Option<String>>, rewrite: &Option<RewriteRule>) -> (out: Result<
    Vec<String>,
    SourceError,
>)
    ensures
        gives(out, pages_of(addresses.deep_view(), rewrite.deep_view())),
        out matches Ok(pages) ==> pages.len() == addresses.len(),
        out != Err::<Vec<String>, SourceError>(SourceError::ParseError(Cause::Shape)),
        out != Err::<Vec<String>, SourceError>(SourceError::ParseError(Cause::Selector)),
{
    let ghost all = addresses.deep_view();
    let mut out: Vec<String> = Vec::new();
    let mut i: usize = 0;
    proof {
        assert(all.take(0) =~= Seq::empty());
        assert(out.deep_view() =~= Seq::empty());
    }
    while i < addresses.len()
        invariant
            0 <= i <= addresses.len(),
            all == addresses.deep_view(),
            pages_of(all.take(i as int), rewrite.deep_view()) == Ok::<Seq<Seq<char>>, SourceError>(
                out.deep_view(),
            ),
            out.len() == i,
        decreases addresses.len() - i,
    {
        proof {
            assert(all.take(i as int + 1).drop_last() =~= all.take(i as int));
            assert(all.take(i as int + 1).last() == addresses@[i as int].deep_view());
        }
        match &addresses[i] {
            None => {
                proof {
                    lemma_pages_of_fails(all, rewrite.deep_view(), i as nat + 1, all.len());
                    assert(all.take(all.len() as int) =~= all);
                }
                return Err(SourceError::ParseError(Cause::Page));
            },
            Some(address) => {
                let page = match rewrite {
                    None => Ok(address.clone()),
                    Some(rule) => rewrite_page(
                        captures(rule.pattern.as_str(), address.as_str()),
                        &rule.template,
                    ),
                };
                match page {
                    Ok(p) => {
                        let ghost was = out.deep_view();
                        out.push(p);
                        proof {
                            assert(out.deep_view() =~= was.push(p@));
                        }
                    },
                    Err(e) => {
                        proof {
                            lemma_pages_of_fails(
                                all,
                                rewrite.deep_view(),
                                i as nat + 1,
                                all.len(),
                            );
                            assert(all.take(all.len() as int) =~= all);
                        }
                        return Err(e);
                    },
                }
            },
        }
        i += 1;
    }
    proof {
        assert(all.take(addresses.len() as int) =~= all);
    }
    Ok(out)
}

/// A failure among the first pages is the failure of the whole list.
proof fn lemma_pages_of_fails(
    addresses: Seq<Option<Seq<char>>>,
    rewrite: Option<RewriteRuleView>,
    n: nat,
    m: nat,
)
    requires
        n <= m <= addresses.len(),
        pages_of(addresses.take(n as int), rewrite) is Err,
    ensures
        pages_of(addresses.take(m as int), rewrite) == pages_of(addresses.take(n as int), rewrite),
    decreases m,
{
    if n < m {
        lemma_pages_of_fails(addresses, rewrite, n, (m - 1) as nat);
        assert(addresses.take(m as int).drop_last() =~= addresses.take(m - 1));
    }
}

/// The pages that the document `html` holds under `rule`.
pub fn read_pages(html: &str, rule: &PagesRule) -> (out: Result<Vec<String>, SourceError>)
    ensures
        gives(out, pages_in(html@, rule.deep_view())),
        out matches Ok(pages) ==> pages.len() == matched(html@, rule.image.selector@),
        out != Err::<Vec<String>, SourceError>(SourceError::ParseError(Cause::Shape)),
{
    match select_attrs(html, rule.image.selector.as_str(), rule.image.attr.as_str()) {
        None => Err(SourceError::ParseError(Cause::Selector)),
        Some(addresses) => pages_from(&addresses, &rule.rewrite),
    }
}

/// The title of a chapter: its own where it has one that is not empty, else
/// "Volume" with its volume and "Chapter" with its number, as far as it has
/// them, without white space around.
pub open spec fn chapter_title(
    title: Option<Seq<char>>,
    volume: Option<Seq<char>>,
    number: Option<Seq<char>>,
) -> Seq<char> {
    if title is Some && title->0.len() > 0 {
        title->0
    } else {
        let with_volume = match volume {
            Some(v) => "Volume "@ + v,
            None => Seq::empty(),
        };
        let with_number = match number {
            Some(n) => with_volume + " Chapter "@ + n,
            None => with_volume,
        };
        trimmed(with_number)
    }
}

/// The title of a chapter.
pub fn make_chapter_title(title: &Option<String>, volume: &Option<String>, number: &Option<String>) -> (out:
    String)
    ensures
        out@ == chapter_title(title.deep_view(), volume.deep_view(), number.deep_view()),
{
    match title {
        Some(t) => {
            if !t.as_str().is_empty() {
                return t.clone();
            }
        },
        None => {},
    }
    let mut made = String::new();
    match volume {
        Some(v) => {
            made = glue("Volume ", v.as_str());
        },
        None => {},
    }
    match number {
        Some(n) => {
            made.append(" Chapter ");
            made.append(n.as_str());
        },
        None => {},
    }
    trim(made.as_str())
}

/// Whether the character is a decimal digit.
pub open spec fn is_digit(c: char) -> bool {
    '0' <= c <= '9'
}

/// Whether the character is a decimal digit.
fn digit_char(c: char) -> (found: bool)
    ensures
        found == is_digit(c),
{
    '0' <= c && c <= '9'
}

/// The number of digits that `s` begins with.
pub open spec fn digit_run(s: Seq<char>) -> nat
    decreases s.len(),
{
    if s.len() > 0 && is_digit(s[0]) {
        1 + digit_run(s.skip(1))
    } else {
        0
    }
}

/// `s` from its first digit on; empty where it has none.
pub open spec fn from_digit(s: Seq<char>) -> Seq<char>
    decreases s.len(),
{
    if s.len() == 0 || is_digit(s[0]) {
        s
    } else {
        from_digit(s.skip(1))
    }
}

/// The number that `s` begins with: its leading digits and, where a point
/// and at least one digit follow them, the point and those digits.
pub open spec fn number_at(s: Seq<char>) -> Seq<char> {
    let whole = digit_run(s) as int;
    if whole + 1 < s.len() && s[whole] == '.' && is_digit(s[whole + 1]) {
        s.take(whole + 1 + digit_run(s.skip(whole + 1)))
    } else {
        s.take(whole)
    }
}

/// The first number written in `s`, as it is written; empty where `s`
/// holds no digit.
pub open spec fn leading_number(s: Seq<char>) -> Seq<char> {
    number_at(from_digit(s))
}

/// Where the digits of `chars` that begin at `from` end.
fn run_end(chars: &Vec<char>, from: usize) -> (end: usize)
    requires
        from <= chars.len(),
    ensures
        from <= end <= chars.len(),
        end - from == digit_run(chars@.skip(from as int)),
{
    let mut end: usize = from;
    proof {
        assert(digit_run(chars@.skip(from as int)) == (end - from) + digit_run(
            chars@.skip(end as int),
        ));
    }
    while end < chars.len() && digit_char(chars[end])
        invariant
            from <= end <= chars.len(),
            digit_run(chars@.skip(from as int)) == (end - from) + digit_run(
                chars@.skip(end as int),
            ),
        decreases chars.len() - end,
    {
        proof {
            assert(chars@.skip(end as int).skip(1) =~= chars@.skip(end as int + 1));
            assert(chars@.skip(end as int)[0] == chars@[end as int]);
        }
        end += 1;
    }
    proof {
        if end < chars.len() {
            assert(chars@.skip(end as int)[0] == chars@[end as int]);
        }
    }
    end
}

/// The first number written in `s`, as it is written.
pub fn find_number(s: &str) -> (out: String)
    ensures
        out@ == leading_number(s@),
{
    let chars = chars_of(s);
    let mut start: usize = 0;
    proof {
        assert(chars@.skip(0) =~= chars@);
    }
    while start < chars.len() && !digit_char(chars[start])
        invariant
            0 <= start <= chars.len(),
            from_digit(chars@) == from_digit(chars@.skip(start as int)),
        decreases chars.len() - start,
    {
        proof {
            assert(chars@.skip(start as int).skip(1) =~= chars@.skip(start as int + 1));
            assert(chars@.skip(start as int)[0] == chars@[start as int]);
        }
        start += 1;
    }
    let ghost rest = chars@.skip(start as int);
    proof {
        if start < chars.len() {
            assert(rest[0] == chars@[start as int]);
        }
        assert(from_digit(chars@) == rest);
    }
    let whole = run_end(&chars, start);
    let mut end = whole;
    proof {
        if whole < chars.len() {
            assert(rest[whole - start] == chars@[whole as int]);
        }
    }
    if whole < chars.len() && whole + 1 < chars.len() && chars[whole] == '.' && digit_char(
        chars[whole + 1],
    ) {
        proof {
            assert(rest[whole - start + 1] == chars@[whole as int + 1]);
            assert(rest.skip(whole - start + 1) =~= chars@.skip(whole as int + 1));
        }
        end = run_end(&chars, whole + 1);
    } else {
        proof {
            if whole < chars.len() && whole + 1 < chars.len() {
                assert(rest[whole - start + 1] == chars@[whole as int + 1]);
            }
        }
    }
    proof {
        assert(rest.take(end - start) =~= chars@.subrange(start as int, end as int));
    }
    string_of(&chars, start, end)
}

/// How a source writes the page of one entry. Only the title must be
/// there.
#[derive(Debug)]
pub struct DetailRule {
    pub title: String,
    pub cover: AttrRule,
    pub authors: String,
    pub genres: String,
    pub status: String,
    pub description: String,
}

/// What a `DetailRule` holds.
pub struct DetailRuleView {
    pub title: Seq<char>,
    pub cover: AttrRuleView,
    pub authors: Seq<char>,
    pub genres: Seq<char>,
    pub status: Seq<char>,
    pub description: Seq<char>,
}

impl DeepView for DetailRule {
    type V = DetailRuleView;

    open spec fn deep_view(&self) -> DetailRuleView {
        DetailRuleView {
            title: self.title@,
            cover: self.cover.deep_view(),
            authors: self.authors@,
            genres: self.genres@,
            status: self.status@,
            description: self.description@,
        }
    }
}

/// What the selectors of a `DetailRule` matched in a page.
pub struct DetailParts {
    pub titles: Seq<Seq<Seq<char>>>,
    pub covers: Seq<Option<Seq<char>>>,
    pub authors: Seq<Seq<Seq<char>>>,
    pub genres: Seq<Seq<Seq<char>>>,
    pub statuses: Seq<Seq<Seq<char>>>,
    pub descriptions: Seq<Seq<Seq<char>>>,
}

/// A text without white space around, where there is a text.
pub open spec fn trimmed_option(text: Option<Seq<char>>) -> Option<Seq<char>> {
    match text {
        Some(t) => Some(trimmed(t)),
        None => None,
    }
}

/// The entry that a page gives. A page without a title is a failure; a
/// page without a cover has an empty cover address, and whatever else is
/// missing is empty or absent.
pub open spec fn detailed(source_id: i64, path: Seq<char>, parts: DetailParts) -> Result<
    MangaInfoView,
    SourceError,
> {
    match first_text(parts.titles) {
        None => Err(SourceError::ParseError(Cause::Title)),
        Some(title) => Ok(
            MangaInfoView {
                source_id,
                title: trimmed(title),
                author: all_texts(parts.authors),
                genre: all_texts(parts.genres),
                status: trimmed_option(first_text(parts.statuses)),
                description: trimmed_option(first_text(parts.descriptions)),
                path,
                cover_url: match first_present(parts.covers) {
                    Some(cover) => cover,
                    None => Seq::empty(),
                },
            },
        ),
    }
}

/// The entry that the document `html` holds under `rule`.
pub open spec fn detail_in(source_id: i64, path: Seq<char>, html: Seq<char>, rule: DetailRuleView) -> Result<
    MangaInfoView,
    SourceError,
> {
    match (
        selected_texts(html, rule.title),
        selected_attrs(html, rule.cover.selector, rule.cover.attr),
        selected_texts(html, rule.authors),
        selected_texts(html, rule.genres),
        selected_texts(html, rule.status),
        selected_texts(html, rule.description),
    ) {
        (
            Some(titles),
            Some(covers),
            Some(authors),
            Some(genres),
            Some(statuses),
            Some(descriptions),
        ) => detailed(
            source_id,
            path,
            DetailParts { titles, covers, authors, genres, statuses, descriptions },
        ),
        _ => Err(SourceError::ParseError(Cause::Selector)),
    }
}

/// A text without white space around, where there is a text.
fn trim_option(text: Option<String>) -> (out: Option<String>)
    ensures
        out.deep_view() == trimmed_option(text.deep_view()),
{
    match text {
        Some(t) => Some(trim(t.as_str())),
        None => None,
    }
}

/// The entry that a page gives, given what the selectors matched.
pub fn detail_from(
    source_id: i64,
    path: String,
    titles: &Vec<Vec<String>>,
    covers: &Vec<Option<String>>,
    authors: &Vec<Vec<String>>,
    genres: &Vec<Vec<String>>,
    statuses: &Vec<Vec<String>>,
    descriptions: &Vec<Vec<String>>,
) -> (out: Result<MangaInfo, SourceError>)
    ensures
        gives(
            out,
            detailed(
                source_id,
                path@,
                DetailParts {
                    titles: titles.deep_view(),
                    covers: covers.deep_view(),
                    authors: authors.deep_view(),
                    genres: genres.deep_view(),
                    statuses: statuses.deep_view(),
                    descriptions: descriptions.deep_view(),
                },
            ),
        ),
{
    let title = match pick_first_text(titles) {
        Some(t) => trim(t.as_str()),
        None => {
            return Err(SourceError::ParseError(Cause::Title));
        },
    };
    let cover_url = match pick_first(covers) {
        Some(c) => c,
        None => String::new(),
    };
    Ok(
        MangaInfo {
            source_id,
            title,
            author: collect_texts(authors),
            genre: collect_texts(genres),
            status: trim_option(pick_first_text(statuses)),
            description: trim_option(pick_first_text(descriptions)),
            path,
            cover_url,
        },
    )
}

/// The entry that the document `html` holds under `rule`.
pub fn read_detail(source_id: i64, path: String, html: &str, rule: &DetailRule) -> (out: Result<
    MangaInfo,
    SourceError,
>)
    ensures
        gives(out, detail_in(source_id, path@, html@, rule.deep_view())),
{
    let titles = select_texts(html, rule.title.as_str());
    let covers = select_attrs(html, rule.cover.selector.as_str(), rule.cover.attr.as_str());
    let authors = select_texts(html, rule.authors.as_str());
    let genres = select_texts(html, rule.genres.as_str());
    let statuses = select_texts(html, rule.status.as_str());
    let descriptions = select_texts(html, rule.description.as_str());
    match (titles, covers, authors, genres, statuses, descriptions) {
        (Some(t), Some(c), Some(a), Some(g), Some(s), Some(d)) => detail_from(
            source_id,
            path,
            &t,
            &c,
            &a,
            &g,
            &s,
            &d,
        ),
        _ => Err(SourceError::ParseError(Cause::Selector)),
    }
}

/// How a source writes the time of a chapter: as a day in a format, in the
/// text of an element, or as a point in time after RFC 3339, in an
/// attribute.
#[derive(Debug)]
pub enum DateRule {
    Day { selector: String, format: String },
    Stamp { selector: String, attr: String },
}

/// What a `DateRule` holds.
pub enum DateRuleView {
    Day { selector: Seq<char>, format: Seq<char> },
    Stamp { selector: Seq<char>, attr: Seq<char> },
}

impl DeepView for DateRule {
    type V = DateRuleView;

    open spec fn deep_view(&self) -> DateRuleView {
        match self {
            DateRule::Day { selector, format } => DateRuleView::Day {
                selector: selector@,
                format: format@,
            },
            DateRule::Stamp { selector, attr } => DateRuleView::Stamp {
                selector: selector@,
                attr: attr@,
            },
        }
    }
}

/// How a source writes the chapters of an entry: `item` matches the
/// chapters; inside a chapter `link` finds the address of the chapter,
/// `title` the element holding its title, and `date` its time. Where `base`
/// is given, it is cut out of the address to make the path.
#[derive(Debug)]
pub struct ChaptersRule {
    pub item: String,
    pub link: AttrRule,
    pub title: String,
    pub date: DateRule,
    pub base: Option<String>,
}

/// What a `ChaptersRule` holds.
pub struct ChaptersRuleView {
    pub item: Seq<char>,
    pub link: AttrRuleView,
    pub title: Seq<char>,
    pub date: DateRuleView,
    pub base: Option<Seq<char>>,
}

impl DeepView for ChaptersRule {
    type V = ChaptersRuleView;

    open spec fn deep_view(&self) -> ChaptersRuleView {
        ChaptersRuleView {
            item: self.item@,
            link: self.link.deep_view(),
            title: self.title@,
            date: self.date.deep_view(),
            base: self.base.deep_view(),
        }
    }
}

/// The text that tells the time of each chapter: the first text or the
/// first attribute value that the date selector found in it.
pub open spec fn date_texts(html: Seq<char>, item: Seq<char>, date: DateRuleView) -> Option<
    Seq<Option<Seq<char>>>,
> {
    match date {
        DateRuleView::Day { selector, format } => match nested_texts(html, item, selector) {
            Some(found) => Some(Seq::new(found.len(), |i: int| first_text(found[i]))),
            None => None,
        },
        DateRuleView::Stamp { selector, attr } => match nested_attrs(html, item, selector, attr) {
            Some(found) => Some(Seq::new(found.len(), |i: int| first_present(found[i]))),
            None => None,
        },
    }
}

/// The time that a text tells, in seconds since the epoch; 0 where there
/// is no text or it cannot be read.
pub open spec fn uploaded_at(text: Option<Seq<char>>, date: DateRuleView) -> i64 {
    match text {
        None => 0,
        Some(t) => match date {
            DateRuleView::Day { selector, format } => match date_timestamp_of(trimmed(t), format) {
                Some(seconds) => seconds,
                None => 0,
            },
            DateRuleView::Stamp { selector, attr } => match rfc3339_timestamp(t) {
                Some(seconds) => seconds,
                None => 0,
            },
        },
    }
}

/// The chapter that one item gives. Its number is the first number in its
/// title; its title is the one found, without white space around, or else
/// made of the number. An item without an address is a failure.
pub open spec fn chapter_item(
    source_id: i64,
    link: Seq<Option<Seq<char>>>,
    title: Seq<Seq<Seq<char>>>,
    date: Option<Seq<char>>,
    rule: ChaptersRuleView,
) -> Result<ChapterInfoView, SourceError> {
    match first_present(link) {
        None => Err(SourceError::ParseError(Cause::Path)),
        Some(address) => {
            let found = match first_text(title) {
                Some(t) => trimmed(t),
                None => Seq::empty(),
            };
            let number = leading_number(found);
            Ok(
                ChapterInfoView {
                    source_id,
                    title: chapter_title(
                        Some(found),
                        None,
                        if number.len() > 0 {
                            Some(number)
                        } else {
                            None
                        },
                    ),
                    path: relative(address, rule.base),
                    number,
                    scanlator: None,
                    uploaded: uploaded_at(date, rule.date),
                },
            )
        },
    }
}

/// The chapters of the first `n` items, in order, or the failure of the
/// first item that fails.
pub open spec fn chapters_first(
    source_id: i64,
    links: Seq<Seq<Option<Seq<char>>>>,
    titles: Seq<Seq<Seq<Seq<char>>>>,
    dates: Seq<Option<Seq<char>>>,
    rule: ChaptersRuleView,
    n: nat,
) -> Result<Seq<ChapterInfoView>, SourceError>
    decreases n,
{
    if n == 0 {
        Ok(Seq::empty())
    } else {
        match chapters_first(source_id, links, titles, dates, rule, (n - 1) as nat) {
            Err(e) => Err(e),
            Ok(before) => match chapter_item(
                source_id,
                links[n - 1],
                titles[n - 1],
                dates[n - 1],
                rule,
            ) {
                Err(e) => Err(e),
                Ok(chapter) => Ok(before.push(chapter)),
            },
        }
    }
}

/// The chapters of an entry, given for each item what the selectors
/// matched. Selections that disagree on the number of items do not have the
/// shape of a chapter list.
pub open spec fn chaptered(
    source_id: i64,
    links: Seq<Seq<Option<Seq<char>>>>,
    titles: Seq<Seq<Seq<Seq<char>>>>,
    dates: Seq<Option<Seq<char>>>,
    rule: ChaptersRuleView,
) -> Result<Seq<ChapterInfoView>, SourceError> {
    if links.len() != titles.len() || links.len() != dates.len() {
        Err(SourceError::ParseError(Cause::Shape))
    } else {
        chapters_first(source_id, links, titles, dates, rule, links.len())
    }
}

/// The chapters that the document `html` holds under `rule`.
pub open spec fn chapters_in(source_id: i64, html: Seq<char>, rule: ChaptersRuleView) -> Result<
    Seq<ChapterInfoView>,
    SourceError,
> {
    match (
        nested_attrs(html, rule.item, rule.link.selector, rule.link.attr),
        nested_texts(html, rule.item, rule.title),
        date_texts(html, rule.item, rule.date),
    ) {
        (Some(links), Some(titles), Some(dates)) => chaptered(
            source_id,
            links,
            titles,
            dates,
            rule,
        ),
        _ => Err(SourceError::ParseError(Cause::Selector)),
    }
}

/// The time that a text tells, in seconds since the epoch.
pub fn read_uploaded(text: &Option<String>, date: &DateRule) -> (out: i64)
    ensures
        out == uploaded_at(text.deep_view(), date.deep_view()),
{
    match text {
        None => 0,
        Some(t) => {
            let found = match date {
                DateRule::Day { selector, format } => parse_date(
                    trim(t.as_str()).as_str(),
                    format.as_str(),
                ),
                DateRule::Stamp { selector, attr } => parse_rfc3339(t.as_str()),
            };
            match found {
                Some(seconds) => seconds,
                None => 0,
            }
        },
    }
}

/// The chapter that one item gives.
fn chapter_from(
    source_id: i64,
    link: &Vec<Option<String>>,
    title: &Vec<Vec<String>>,
    date: &Option<String>,
    rule: &ChaptersRule,
) -> (out: Result<ChapterInfo, SourceError>)
    ensures
        gives(
            out,
            chapter_item(
                source_id,
                link.deep_view(),
                title.deep_view(),
                date.deep_view(),
                rule.deep_view(),
            ),
        ),
{
    let address = match pick_first(link) {
        Some(a) => a,
        None => {
            return Err(SourceError::ParseError(Cause::Path));
        },
    };
    let found = match pick_first_text(title) {
        Some(t) => trim(t.as_str()),
        None => String::new(),
    };
    let number = find_number(found.as_str());
    let counted: Option<String> = if number.as_str().is_empty() {
        None
    } else {
        Some(number.clone())
    };
    let nothing: Option<String> = None;
    let shown = make_chapter_title(&Some(found), &nothing, &counted);
    let base: Option<&str> = match &rule.base {
        Some(b) => Some(b.as_str()),
        None => None,
    };
    Ok(
        ChapterInfo {
            source_id,
            title: shown,
            path: make_relative(address, base),
            number,
            scanlator: None,
            uploaded: read_uploaded(date, &rule.date),
        },
    )
}

/// The chapters of an entry, given for each item what the selectors
/// matched.
pub fn chapters_from(
    source_id: i64,
    links: &Vec<Vec<Option<String>>>,
    titles: &Vec<Vec<Vec<String>>>,
    dates: &Vec<Option<String>>,
    rule: &ChaptersRule,
) -> (out: Result<Vec<ChapterInfo>, SourceError>)
    ensures
        gives(
            out,
            chaptered(
                source_id,
                links.deep_view(),
                titles.deep_view(),
                dates.deep_view(),
                rule.deep_view(),
            ),
        ),
        out matches Ok(list) ==> list.len() == links.len(),
        out == Err::<Vec<ChapterInfo>, SourceError>(SourceError::ParseError(Cause::Shape)) <==> (
        links.len() != titles.len() || links.len() != dates.len()),
{
    if links.len() != titles.len() || links.len() != dates.len() {
        return Err(SourceError::ParseError(Cause::Shape));
    }
    let mut out: Vec<ChapterInfo> = Vec::new();
    let mut i: usize = 0;
    proof {
        assert(out.deep_view() =~= Seq::empty());
    }
    while i < links.len()
        invariant
            0 <= i <= links.len(),
            links.len() == titles.len(),
            links.len() == dates.len(),
            chapters_first(
                source_id,
                links.deep_view(),
                titles.deep_view(),
                dates.deep_view(),
                rule.deep_view(),
                i as nat,
            ) == Ok::<Seq<ChapterInfoView>, SourceError>(out.deep_view()),
            out.len() == i,
        decreases links.len() - i,
    {
        proof {
            assert(links.deep_view()[i as int] == links@[i as int].deep_view());
            assert(titles.deep_view()[i as int] == titles@[i as int].deep_view());
            assert(dates.deep_view()[i as int] == dates@[i as int].deep_view());
        }
        match chapter_from(source_id, &links[i], &titles[i], &dates[i], rule) {
            Ok(chapter) => {
                let ghost was = out.deep_view();
                out.push(chapter);
                proof {
                    assert(out.deep_view() =~= was.push(chapter.deep_view()));
                }
            },
            Err(e) => {
                proof {
                    lemma_chapters_first_fails(
                        source_id,
                        links.deep_view(),
                        titles.deep_view(),
                        dates.deep_view(),
                        rule.deep_view(),
                        i as nat + 1,
                        links.len() as nat,
                    );
                }
                return Err(e);
            },
        }
        i += 1;
    }
    Ok(out)
}

/// A failure among the first chapters is the failure of every longer list.
proof fn lemma_chapters_first_fails(
    source_id: i64,
    links: Seq<Seq<Option<Seq<char>>>>,
    titles: Seq<Seq<Seq<Seq<char>>>>,
    dates: Seq<Option<Seq<char>>>,
    rule: ChaptersRuleView,
    n: nat,
    m: nat,
)
    requires
        n <= m,
        chapters_first(source_id, links, titles, dates, rule, n) is Err,
    ensures
        chapters_first(source_id, links, titles, dates, rule, m) == chapters_first(
            source_id,
            links,
            titles,
            dates,
            rule,
            n,
        ),
    decreases m,
{
    if n < m {
        lemma_chapters_first_fails(source_id, links, titles, dates, rule, n, (m - 1) as nat);
    }
}

/// The first text of each item.
fn first_texts_of(found: &Vec<Vec<Vec<String>>>) -> (out: Vec<Option<String>>)
    ensures
        out.len() == found.len(),
        out.deep_view() == Seq::new(
            found.deep_view().len(),
            |i: int| first_text(found.deep_view()[i]),
        ),
{
    let mut out: Vec<Option<String>> = Vec::new();
    let mut i: usize = 0;
    while i < found.len()
        invariant
            0 <= i <= found.len(),
            out.len() == i,
            forall|j: int|
                0 <= j < i ==> out@[j].deep_view() == first_text(found.deep_view()[j]),
        decreases found.len() - i,
    {
        proof {
            assert(found.deep_view()[i as int] == found@[i as int].deep_view());
        }
        out.push(pick_first_text(&found[i]));
        i += 1;
    }
    proof {
        assert(out.deep_view() =~= Seq::new(
            found.deep_view().len(),
            |i: int| first_text(found.deep_view()[i]),
        ));
    }
    out
}

/// The first value of each item.
fn first_values_of(found: &Vec<Vec<Option<String>>>) -> (out: Vec<Option<String>>)
    ensures
        out.len() == found.len(),
        out.deep_view() == Seq::new(
            found.deep_view().len(),
            |i: int| first_present(found.deep_view()[i]),
        ),
{
    let mut out: Vec<Option<String>> = Vec::new();
    let mut i: usize = 0;
    while i < found.len()
        invariant
            0 <= i <= found.len(),
            out.len() == i,
            forall|j: int|
                0 <= j < i ==> out@[j].deep_view() == first_present(found.deep_view()[j]),
        decreases found.len() - i,
    {
        proof {
            assert(found.deep_view()[i as int] == found@[i as int].deep_view());
        }
        out.push(pick_first(&found[i]));
        i += 1;
    }
    proof {
        assert(out.deep_view() =~= Seq::new(
            found.deep_view().len(),
            |i: int| first_present(found.deep_view()[i]),
        ));
    }
    out
}

/// The text that tells the time of each chapter.
fn read_date_texts(html: &str, item: &str, date: &DateRule) -> (out: Option<Vec<Option<String>>>)
    ensures
        out.deep_view() == date_texts(html@, item@, date.deep_view()),
        out matches Some(found) ==> found.len() == matched(html@, item@),
{
    match date {
        DateRule::Day { selector, format } => match select_nested_texts(
            html,
            item,
            selector.as_str(),
        ) {
            Some(found) => Some(first_texts_of(&found)),
            None => None,
        },
        DateRule::Stamp { selector, attr } => match select_nested_attrs(
            html,
            item,
            selector.as_str(),
            attr.as_str(),
        ) {
            Some(found) => Some(first_values_of(&found)),
            None => None,
        },
    }
}

/// The chapters that the document `html` holds under `rule`.
pub fn read_chapters(source_id: i64, html: &str, rule: &ChaptersRule) -> (out: Result<
    Vec<ChapterInfo>,
    SourceError,
>)
    ensures
        gives(out, chapters_in(source_id, html@, rule.deep_view())),
        out matches Ok(list) ==> list.len() == matched(html@, rule.item@),
        out != Err::<Vec<ChapterInfo>, SourceError>(SourceError::ParseError(Cause::Shape)),
{
    let links = select_nested_attrs(
        html,
        rule.item.as_str(),
        rule.link.selector.as_str(),
        rule.link.attr.as_str(),
    );
    let titles = select_nested_texts(html, rule.item.as_str(), rule.title.as_str());
    let dates = read_date_texts(html, rule.item.as_str(), &rule.date);
    match (links, titles, dates) {
        (Some(l), Some(t), Some(d)) => chapters_from(source_id, &l, &t, &d, rule),
        _ => Err(SourceError::ParseError(Cause::Selector)),
    }
}

/// A page is an entry as soon as it has a title: without one it fails for
/// the title, and with one it succeeds whatever else is missing, with no
/// author, no genre, no status and no description where the page has none.
pub proof fn lemma_detail_needs_only_title(source_id: i64, path: Seq<char>, parts: DetailParts)
    ensures
        first_text(parts.titles) is None ==> detailed(source_id, path, parts) == Err::<
            MangaInfoView,
            SourceError,
        >(SourceError::ParseError(Cause::Title)),
        first_text(parts.titles) is Some ==> detailed(source_id, path, parts) is Ok,
        first_text(parts.titles) is Some && parts.authors.len() == 0 ==> detailed(
            source_id,
            path,
            parts,
        )->Ok_0.author.len() == 0,
        first_text(parts.titles) is Some && parts.genres.len() == 0 ==> detailed(
            source_id,
            path,
            parts,
        )->Ok_0.genre.len() == 0,
        first_text(parts.titles) is Some && parts.statuses.len() == 0 ==> detailed(
            source_id,
            path,
            parts,
        )->Ok_0.status is None,
        first_text(parts.titles) is Some && parts.descriptions.len() == 0 ==> detailed(
            source_id,
            path,
            parts,
        )->Ok_0.description is None,
{
}

/// A chapter is never without its time: whatever the text of its time is,
/// and where there is none, there is a time, and it is 0 where there is no
/// text and where the text cannot be read as a day or as a point in time.
pub proof fn lemma_uploaded_never_fails(text: Option<Seq<char>>, date: DateRuleView)
    ensures
        text is None ==> uploaded_at(text, date) == 0,
        text is Some && date is Day && date_timestamp_of(trimmed(text->0), date->Day_format)
            is None ==> uploaded_at(text, date) == 0,
        text is Some && date is Stamp && rfc3339_timestamp(text->0) is None ==> uploaded_at(
            text,
            date,
        ) == 0,
{
}

/// The path made of an address under a site leads back to that address:
/// the site followed by the path is the address again, as long as the
/// site's address does not occur in the rest.
pub proof fn lemma_relative_leads_back(site: Seq<char>, rest: Seq<char>)
    requires
        site.len() > 0,
        !occurs_in(site, rest),
    ensures
        relative(site + rest, Some(site)) == rest,
        site + relative(site + rest, Some(site)) == site + rest,
{
    let whole = site + rest;
    assert(whole.subrange(0, site.len() as int) =~= site);
    assert(site.is_prefix_of(whole));
    assert(whole.skip(site.len() as int) =~= rest);
    lemma_replaced_absent(rest, site, Seq::empty());
    assert(Seq::<char>::empty() + rest =~= rest);
}

/// A chapter without a title of its own that has a volume and a number is
/// called "Volume", the volume, "Chapter", the number: for volume 2 and
/// number 5, "Volume 2 Chapter 5". Nothing is trimmed away as long as the
/// number does not end in white space.
pub proof fn lemma_title_of_volume_and_number(volume: Seq<char>, number: Seq<char>)
    requires
        number.len() > 0,
        !white_space(number.last()),
    ensures
        chapter_title(None, Some(volume), Some(number)) == "Volume "@ + volume + " Chapter "@
            + number,
        chapter_title(Some(Seq::empty()), Some(volume), Some(number)) == "Volume "@ + volume
            + " Chapter "@ + number,
{
    reveal_strlit("Volume ");
    reveal_strlit(" Chapter ");
    let made = "Volume "@ + volume + " Chapter "@ + number;
    assert(made[0] == 'V');
    assert(made.last() == number.last());
    assert(trimmed_start(made) == made);
    assert(trimmed_end(made) == made);
}

/// The entry read from the page at a path has that path and the source it
/// was read for: a path that a listing gave leads to the same work.
pub proof fn lemma_detail_keeps_path(source_id: i64, path: Seq<char>, parts: DetailParts)
    ensures
        detailed(source_id, path, parts) matches Ok(entry) ==> entry.path == path
            && entry.source_id == source_id,
{
}

} // verus!

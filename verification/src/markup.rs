//! Reading documents: which elements of a document a selector matches, and
//! what their attributes and texts are. The documents are parsed, and the
//! selectors matched, by the `scraper` crate; nothing of that is proved here.

use scraper::{Html, Selector};
use vstd::prelude::*;

verus! {

/// How many elements of the document `html` the selector `selector`
/// matches: as many as `Html::select` yields.
pub uninterp spec fn matched(html: Seq<char>, selector: Seq<char>) -> nat;

/// For the elements of the document `html` that `selector` matches, in the
/// order `scraper` finds them: the value of the attribute `attr`, where
/// the element has it. `None` where `selector` is no valid selector.
pub uninterp spec fn selected_attrs(html: Seq<char>, selector: Seq<char>, attr: Seq<char>) -> Option<
    Seq<Option<Seq<char>>>,
>;

/// For the elements of the document `html` that `selector` matches, in the
/// order `scraper` finds them: the texts inside the element, in document
/// order. `None` where `selector` is no valid selector.
pub uninterp spec fn selected_texts(html: Seq<char>, selector: Seq<char>) -> Option<
    Seq<Seq<Seq<char>>>,
>;

/// For each element of the document `html` that `outer` matches: what
/// `selected_attrs` is to the document, for the elements below that element
/// that `inner` matches. `None` where one of the two is no valid selector.
pub uninterp spec fn nested_attrs(
    html: Seq<char>,
    outer: Seq<char>,
    inner: Seq<char>,
    attr: Seq<char>,
) -> Option<Seq<Seq<Option<Seq<char>>>>>;

/// For each element of the document `html` that `outer` matches: what
/// `selected_texts` is to the document, for the elements below that element
/// that `inner` matches. `None` where one of the two is no valid selector.
pub uninterp spec fn nested_texts(html: Seq<char>, outer: Seq<char>, inner: Seq<char>) -> Option<
    Seq<Seq<Seq<Seq<char>>>>,
>;

/// Parses `html` with `Html::parse_document` and `selector` with
/// `Selector::parse`, walks `Html::select` and asks each element for the
/// attribute with `Element::attr`. The contract claims that the outcome is a
/// function of the three texts, and that it has one entry for each element
/// that `Html::select` yields.
#[verifier::external_body]
pub(crate) fn select_attrs(html: &str, selector: &str, attr: &str) -> (out: Option<
    Vec<Option<String>>,
>)
    ensures
        out.deep_view() == selected_attrs(html@, selector@, attr@),
        out matches Some(found) ==> found.len() == matched(html@, selector@),
{
    let selector = Selector::parse(selector).ok()?;
    let document = Html::parse_document(html);
    Some(document.select(&selector).map(|e| e.value().attr(attr).map(String::from)).collect())
}

/// Parses `html` with `Html::parse_document` and `selector` with
/// `Selector::parse`, walks `Html::select` and collects each element's
/// `ElementRef::text`. The contract claims that the outcome is a function of
/// the two texts, and that it has one entry for each element that
/// `Html::select` yields.
#[verifier::external_body]
pub(crate) fn select_texts(html: &str, selector: &str) -> (out: Option<Vec<Vec<String>>>)
    ensures
        out.deep_view() == selected_texts(html@, selector@),
        out matches Some(found) ==> found.len() == matched(html@, selector@),
{
    let selector = Selector::parse(selector).ok()?;
    let document = Html::parse_document(html);
    Some(document.select(&selector).map(|e| e.text().map(String::from).collect()).collect())
}

/// As `select_attrs`, but inside each element that `outer` matches, with
/// `ElementRef::select` for `inner`. The contract claims that the outcome is
/// a function of the four texts, and that it has one entry for each element
/// that `Html::select` yields for `outer`.
#[verifier::external_body]
pub(crate) fn select_nested_attrs(html: &str, outer: &str, inner: &str, attr: &str) -> (out: Option<
    Vec<Vec<Option<String>>>,
>)
    ensures
        out.deep_view() == nested_attrs(html@, outer@, inner@, attr@),
        out matches Some(found) ==> found.len() == matched(html@, outer@),
{
    let outer = Selector::parse(outer).ok()?;
    let inner = Selector::parse(inner).ok()?;
    let document = Html::parse_document(html);
    Some(
        document.select(&outer).map(
            |o| o.select(&inner).map(|e| e.value().attr(attr).map(String::from)).collect(),
        ).collect(),
    )
}

/// As `select_texts`, but inside each element that `outer` matches, with
/// `ElementRef::select` for `inner`. The contract claims that the outcome is
/// a function of the three texts, and that it has one entry for each element
/// that `Html::select` yields for `outer`.
#[verifier::external_body]
pub(crate) fn select_nested_texts(html: &str, outer: &str, inner: &str) -> (out: Option<
    Vec<Vec<Vec<String>>>,
>)
    ensures
        out.deep_view() == nested_texts(html@, outer@, inner@),
        out matches Some(found) ==> found.len() == matched(html@, outer@),
{
    let outer = Selector::parse(outer).ok()?;
    let inner = Selector::parse(inner).ok()?;
    let document = Html::parse_document(html);
    Some(
        document.select(&outer).map(
            |o| o.select(&inner).map(|e| e.text().map(String::from).collect()).collect(),
        ).collect(),
    )
}

} // verus!

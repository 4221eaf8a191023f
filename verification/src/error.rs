//! The failures an operation can report.

use vstd::prelude::*;

verus! {

/// What a response lacked, or what went wrong while reading it.
#[derive(Debug, Clone, Copy, PartialEq, Eq, Structural)]
pub enum Cause {
    /// A configured selector is not a valid selector.
    Selector,
    /// An item of a listing, or a detail page, has no cover image.
    Cover,
    /// An item has no path.
    Path,
    /// An item, or a detail page, has no title.
    Title,
    /// The response does not have the shape the operation expects.
    Shape,
    /// A page image address does not match the rewrite pattern.
    Page,
    /// The pattern could not be run on a page image address.
    Pattern,
}

/// The failure of one operation.
#[derive(Debug, Clone, Copy, PartialEq, Eq, Structural)]
pub enum SourceError {
    /// The transport failed.
    FetchError,
    /// The response did not match the expected shape.
    ParseError(Cause),
    /// The path does not name anything on the site.
    NotFound,
    /// The caller gave neither a query nor filters, or gave what the
    /// operation cannot use.
    InvalidArgument,
}

} // verus!

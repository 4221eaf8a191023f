//! The request an operation sends: method, address and headers. Sending it
//! is the caller's part.

use crate::text::{decimal, decimal_text};
use vstd::prelude::*;

verus! {

/// How a request is sent.
#[derive(Debug, Clone, Copy, PartialEq, Eq, Structural)]
pub enum Method {
    Get,
    Post,
}

/// One header of a request.
#[derive(Debug)]
pub struct Header {
    pub name: String,
    pub value: String,
}

/// A request to a source.
#[derive(Debug)]
pub struct Request {
    pub method: Method,
    pub url: String,
    pub headers: Vec<Header>,
}

/// What a `Request` holds.
pub struct RequestView {
    pub method: Method,
    pub url: Seq<char>,
    pub headers: Seq<(Seq<char>, Seq<char>)>,
}

impl DeepView for Header {
    type V = (Seq<char>, Seq<char>);

    open spec fn deep_view(&self) -> (Seq<char>, Seq<char>) {
        (self.name@, self.value@)
    }
}

impl DeepView for Request {
    type V = RequestView;

    open spec fn deep_view(&self) -> RequestView {
        RequestView {
            method: self.method,
            url: self.url@,
            headers: self.headers.deep_view(),
        }
    }
}

/// A GET request for `url` without headers.
pub open spec fn plain_get(url: Seq<char>) -> RequestView {
    RequestView { method: Method::Get, url, headers: Seq::empty() }
}

/// The page a caller asks for, counted from 1: anything below 1 is page 1.
pub open spec fn page_index(page: i64) -> nat {
    if page < 1 {
        1
    } else {
        page as nat
    }
}

/// The page a caller asks for, counted from 1: anything below 1 is page 1.
pub fn clamp_page(page: i64) -> (index: u64)
    ensures
        index == page_index(page),
        index >= 1,
{
    if page < 1 {
        1
    } else {
        page as u64
    }
}

/// The page number as it is written into an address.
pub fn page_text(page: i64) -> (out: String)
    ensures
        out@ == decimal_text(page_index(page)),
{
    decimal(clamp_page(page) as u128)
}

/// A GET request for `url` without headers.
pub fn get(url: String) -> (out: Request)
    ensures
        out.deep_view() == plain_get(url@),
{
    let out = Request { method: Method::Get, url, headers: Vec::new() };
    proof {
        assert(out.headers.deep_view() =~= Seq::empty());
    }
    out
}

/// From the first page on, the page after a page is the next page: two
/// calls for pages that follow each other never ask for the same page.
pub proof fn lemma_next_page(page: i64)
    requires
        1 <= page < i64::MAX,
    ensures
        page_index((page + 1) as i64) == page_index(page) + 1,
        page_index(page) == page,
{
}

/// Whatever is asked for below the first page is the first page.
pub proof fn lemma_page_clamped(page: i64)
    requires
        page < 1,
    ensures
        page_index(page) == 1,
{
}

} // verus!

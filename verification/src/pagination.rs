//! The pagination engine: the window of rows that a page request selects and
//! the envelope that describes the page.

use crate::text::{decimal, u64_to_decimal};
use vstd::prelude::*;
use vstd::string::*;

verus! {

/// The page that a request without a page number asks for.
pub const DEFAULT_PAGE: u64 = 1;

/// The page size of a request that names none.
pub const DEFAULT_PAGE_SIZE: u64 = 5;

/// The page parameters as the client sent them.
#[derive(Clone, Copy, Debug, PartialEq, Eq)]
pub struct PaginationQuery {
    pub page: Option<u64>,
    pub page_size: Option<u64>,
}

/// The order in which a window takes the rows.
#[derive(Clone, Copy, Debug, PartialEq, Eq, Structural)]
pub enum RowOrder {
    /// By ascending primary identifier.
    AscendingId,
}

/// A bounded query: `limit` rows after the first `offset`, in `order`.
#[derive(Clone, Copy, Debug, PartialEq, Eq, Structural)]
pub struct PageWindow {
    pub order: RowOrder,
    pub offset: u64,
    pub limit: u64,
}

/// One page of rows with its navigation links; a link is a query string, or
/// empty where there is no such page.
#[derive(Clone, Debug, PartialEq, Eq)]
pub struct PageEnvelope<T> {
    pub page: u64,
    pub total: u64,
    pub prev: String,
    pub next: String,
    pub users: Vec<T>,
}

/// The pagination of one request.
#[derive(Clone, Copy, Debug)]
pub struct Pagination {
    pub query: PaginationQuery,
}

/// The page that `query` asks for.
pub open spec fn page_of(query: PaginationQuery) -> u64 {
    match query.page {
        Some(page) => page,
        None => DEFAULT_PAGE,
    }
}

/// The page size that `query` asks for.
pub open spec fn page_size_of(query: PaginationQuery) -> u64 {
    match query.page_size {
        Some(page_size) => page_size,
        None => DEFAULT_PAGE_SIZE,
    }
}

/// The number of rows that the window of `query` skips: the page number times
/// the page size, so that page 1 starts after the first `page_size` rows.
pub open spec fn offset_of(query: PaginationQuery) -> int {
    page_of(query) * page_size_of(query)
}

/// The number of pages that `total` rows fill completely.
pub open spec fn page_count(total: int, page_size: int) -> int
    recommends
        page_size > 0,
{
    total / page_size
}

/// The query string that leads to `page`.
pub open spec fn page_link(page: nat, page_size: nat) -> Seq<char> {
    "page="@ + decimal(page) + "&page_size="@ + decimal(page_size)
}

/// The link to the page after `page`: present only while the number of that
/// page is below the page count.
pub open spec fn next_link(page: int, page_size: int, total: int) -> Seq<char>
    recommends
        page >= 0,
        page_size > 0,
{
    if page + 1 < page_count(total, page_size) {
        page_link((page + 1) as nat, page_size as nat)
    } else {
        Seq::empty()
    }
}

/// The link to the page before `page`: present only where that page has a
/// positive number.
pub open spec fn prev_link(page: int, page_size: int) -> Seq<char>
    recommends
        page_size >= 0,
{
    if page - 1 > 0 {
        page_link((page - 1) as nat, page_size as nat)
    } else {
        Seq::empty()
    }
}

/// Whether `envelope` is the envelope of the rows `users` for the page that
/// `query` asks for, out of `total` rows in all: it repeats the page number
/// and the total, holds the rows as given, and links to the neighbouring
/// pages.
pub open spec fn describes<T>(
    envelope: PageEnvelope<T>,
    query: PaginationQuery,
    users: Vec<T>,
    total: u64,
) -> bool {
    &&& envelope.page == page_of(query)
    &&& envelope.total == total
    &&& envelope.next@ == next_link(page_of(query) as int, page_size_of(query) as int, total as int)
    &&& envelope.prev@ == prev_link(page_of(query) as int, page_size_of(query) as int)
    &&& envelope.users == users
}

/// Renders the query string that leads to `page`.
pub fn render_page_link(page: u64, page_size: u64) -> (link: String)
    ensures
        link@ == page_link(page as nat, page_size as nat),
{
    let mut link = String::from_str("page=");
    let page_text = u64_to_decimal(page);
    link.append(page_text.as_str());
    link.append("&page_size=");
    let size_text = u64_to_decimal(page_size);
    link.append(size_text.as_str());
    link
}

impl PaginationQuery {
    /// A query with the parameters as sent.
    pub fn new(page: Option<u64>, page_size: Option<u64>) -> (query: PaginationQuery)
        ensures
            query.page == page,
            query.page_size == page_size,
    {
        PaginationQuery { page, page_size }
    }

    /// The page asked for: 1 where the request names none.
    pub fn page(&self) -> (page: u64)
        ensures
            page == page_of(*self),
    {
        match self.page {
            Some(page) => page,
            None => DEFAULT_PAGE,
        }
    }

    /// The page size asked for: 5 where the request names none.
    pub fn page_size(&self) -> (page_size: u64)
        ensures
            page_size == page_size_of(*self),
    {
        match self.page_size {
            Some(page_size) => page_size,
            None => DEFAULT_PAGE_SIZE,
        }
    }
}

impl Pagination {
    /// The window of rows that the request selects. The query is described,
    /// not run.
    pub fn paginate(&self) -> (window: PageWindow)
        requires
            offset_of(self.query) <= u64::MAX,
        ensures
            window.order == RowOrder::AscendingId,
            window.offset == offset_of(self.query),
            window.limit == page_size_of(self.query),
    {
        let page_size = self.query.page_size();
        let page = self.query.page();
        let offset = page * page_size;
        PageWindow { order: RowOrder::AscendingId, offset, limit: page_size }
    }

    /// The window of rows that the request selects, unless its offset is
    /// beyond what a window can hold.
    pub fn checked_paginate(&self) -> (window: Option<PageWindow>)
        ensures
            match window {
                Some(w) => {
                    &&& offset_of(self.query) <= u64::MAX
                    &&& w.order == RowOrder::AscendingId
                    &&& w.offset == offset_of(self.query)
                    &&& w.limit == page_size_of(self.query)
                },
                None => offset_of(self.query) > u64::MAX,
            },
    {
        match self.query.page().checked_mul(self.query.page_size()) {
            Some(_) => Some(self.paginate()),
            None => None,
        }
    }

    /// The envelope for the rows `users` of the page asked for, out of
    /// `total` rows in all.
    pub fn response<T>(&self, users: Vec<T>, total: u64) -> (envelope: PageEnvelope<T>)
        requires
            page_size_of(self.query) != 0,
        ensures
            describes(envelope, self.query, users, total),
    {
        let page = self.query.page();
        let page_size = self.query.page_size();
        let pages = total / page_size;

        let mut next = String::new();
        if page < u64::MAX && page + 1 < pages {
            next = render_page_link(page + 1, page_size);
        }

        let mut prev = String::new();
        if page > 1 {
            prev = render_page_link(page - 1, page_size);
        }

        PageEnvelope { page, total, prev, next, users }
    }
}

} // verus!

//! The pure core of each route: the raw query shapes, the pagination
//! report builder, and the assembly of validated filters.

use vstd::prelude::*;

pub mod asks;
pub mod bids;
pub mod nft_tokens;
pub mod paid;
pub mod sale;

pub use nft_tokens::NftTokenQuery;

verus! {

/// Raw, untrusted query parameters shared by the listing routes. Each
/// field is exactly what the query string carried, if anything.
#[derive(Debug, Clone)]
pub struct PaginationQuery {
    pub days: Option<i64>,
    pub limit: Option<i64>,
    pub offset: Option<i64>,
    pub token_id: Option<String>,
}

/// Raw pagination pair of the plain sales listing, taken as given.
#[derive(Debug, Clone, Copy)]
pub struct Pagination {
    pub limit: i64,
    pub offset: i64,
}

/// One page of rows plus the flag that tells whether further pages exist.
#[derive(Debug, Clone)]
pub struct RowsJsonReport<T> {
    pub rows: Vec<T>,
    pub end: bool,
}

impl<T> RowsJsonReport<T> {
    pub fn new(rows: Vec<T>, end: bool) -> (r: Self)
        ensures
            r.rows == rows,
            r.end == end,
    {
        Self { rows, end }
    }

    /// Decides the visible page from a fetch of at most `limit + 1` rows:
    /// when no more than `limit` rows came back there is nothing beyond
    /// them (`end = true`); when the lookahead row came back too, it is
    /// dropped and `end = false` reports that further pages exist.
    pub fn from_rows(rows: Vec<T>, limit: i64) -> (r: Self)
        requires
            0 <= limit,
            rows@.len() <= limit + 1,
        ensures
            rows@.len() <= limit ==> r.rows@ == rows@ && r.end == true,
            rows@.len() == limit + 1 ==> r.rows@ == rows@.take(limit as int) && r.end == false,
            r.rows@.len() <= limit,
    {
        let mut rows = rows;
        if rows.len() as u64 <= limit as u64 {
            Self::new(rows, true)
        } else {
            rows.pop();
            Self::new(rows, false)
        }
    }
}

} // verus!

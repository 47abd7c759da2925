//! Forwarded messages and the window of a listing.

use vstd::prelude::*;

verus! {

/// Messages on a page where the request names no limit.
pub const DEFAULT_PAGE_LIMIT: i64 = 20;

/// The most messages a page ever holds.
pub const MAX_PAGE_LIMIT: i64 = 100;

/// The part of a listing request that selects a page.
#[derive(Debug)]
pub struct SmsQuery {
    pub limit: Option<i64>,
    pub offset: Option<i64>,
}

impl SmsQuery {
    /// The limit that the directory is asked with: the one requested, or
    /// `DEFAULT_PAGE_LIMIT`; never more than `MAX_PAGE_LIMIT`.
    pub open spec fn page_limit(self) -> i64 {
        let asked = match self.limit {
            Some(n) => n,
            None => DEFAULT_PAGE_LIMIT,
        };
        if asked <= MAX_PAGE_LIMIT {
            asked
        } else {
            MAX_PAGE_LIMIT
        }
    }

    /// The offset that the directory is asked with: the one requested, or 0.
    pub open spec fn page_offset(self) -> i64 {
        match self.offset {
            Some(n) => n,
            None => 0,
        }
    }

    /// Limit and offset of the page to fetch.
    pub fn page(&self) -> (r: (i64, i64))
        ensures
            r.0 == self.page_limit(),
            r.1 == self.page_offset(),
    {
        let asked = match self.limit {
            Some(n) => n,
            None => DEFAULT_PAGE_LIMIT,
        };
        let limit = if asked <= MAX_PAGE_LIMIT {
            asked
        } else {
            MAX_PAGE_LIMIT
        };
        let offset = match self.offset {
            Some(n) => n,
            None => 0,
        };
        (limit, offset)
    }
}

} // verus!

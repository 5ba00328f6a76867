//! Clamping a requested page to something a single query can serve.

use vstd::prelude::*;

verus! {

/// The page size used when the caller asks for none.
pub const DEFAULT_PAGE_LIMIT: u32 = 50;

/// The largest page a caller may ask for.
pub const MAX_PAGE_LIMIT: u32 = 100;

/// The limit actually served: the requested one, or the default, kept within `1..=100`.
pub open spec fn served_limit(limit: Option<u32>) -> int {
    let requested = match limit {
        Some(l) => l as int,
        None => DEFAULT_PAGE_LIMIT as int,
    };
    if requested < 1 {
        1
    } else if requested > MAX_PAGE_LIMIT {
        MAX_PAGE_LIMIT as int
    } else {
        requested
    }
}

/// The offset actually served: the requested one, or zero.
pub open spec fn served_offset(offset: Option<u32>) -> int {
    match offset {
        Some(o) => o as int,
        None => 0,
    }
}

/// The `(limit, offset)` a listing query runs with.
pub fn page_bounds(limit: Option<u32>, offset: Option<u32>) -> (r: (i64, i64))
    ensures
        r.0 == served_limit(limit),
        r.1 == served_offset(offset),
        1 <= r.0 <= MAX_PAGE_LIMIT,
        r.1 >= 0,
{
    let requested = match limit {
        Some(l) => l,
        None => DEFAULT_PAGE_LIMIT,
    };
    let clamped = if requested < 1 {
        1
    } else if requested > MAX_PAGE_LIMIT {
        MAX_PAGE_LIMIT
    } else {
        requested
    };
    let skipped = match offset {
        Some(o) => o,
        None => 0,
    };
    (clamped as i64, skipped as i64)
}

/// A page request as it arrives in a query string.
#[derive(Debug, Clone, Copy)]
pub struct PaginationQuery {
    pub limit: Option<u32>,
    pub offset: Option<u32>,
}

impl PaginationQuery {
    /// The `(limit, offset)` this request is served with.
    pub fn bounds(&self) -> (r: (i64, i64))
        ensures
            r.0 == served_limit(self.limit),
            r.1 == served_offset(self.offset),
    {
        page_bounds(self.limit, self.offset)
    }
}

} // verus!

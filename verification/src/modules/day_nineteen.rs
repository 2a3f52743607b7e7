//! The quote book: how its listing is cut into pages.
//!
//! The quotes themselves live in a database, and the tokens that lead from
//! page to page in a store on disk; both stay with the server. What is
//! decided here is arithmetic: where a page starts, how many quotes to
//! fetch for it, and whether another page follows.

use vstd::prelude::*;

verus! {

/// How many quotes a page shows.
pub const PAGE_SIZE: i32 = 3;

/// The number of the page that a listing starts with.
pub const FIRST_PAGE: i32 = 1;

/// How many quotes lie before page `page`.
pub open spec fn offset_of_page(page: int) -> int {
    (page - 1) * PAGE_SIZE
}

/// How many quotes to fetch for one page: all it shows, and one more that
/// tells whether another page follows.
pub fn fetch_limit() -> (limit: i32)
    ensures
        limit == PAGE_SIZE + 1,
{
    PAGE_SIZE + 1
}

/// How many quotes lie before page `page`: where to start fetching. `None`
/// where that number cannot be written in 32 bits.
pub fn page_offset(page: i32) -> (offset: Option<i32>)
    ensures
        offset == if i32::MIN <= offset_of_page(page as int) <= i32::MAX {
            Some(offset_of_page(page as int) as i32)
        } else {
            None
        },
{
    let before: i64 = page as i64 - 1;
    assert(before * PAGE_SIZE == before * 3);
    let offset: i64 = before * PAGE_SIZE as i64;
    if offset < i32::MIN as i64 || offset > i32::MAX as i64 {
        None
    } else {
        Some(offset as i32)
    }
}

/// Whether another page follows a page for which `fetched` quotes came back.
pub fn has_next_page(fetched: usize) -> (more: bool)
    ensures
        more == (fetched > PAGE_SIZE),
{
    fetched > PAGE_SIZE as usize
}

/// The number of the page behind page `page`. `None` where that number
/// cannot be written in 32 bits.
pub fn next_page(page: i32) -> (next: Option<i32>)
    ensures
        next == if page < i32::MAX {
            Some((page + 1) as i32)
        } else {
            None
        },
{
    if page < i32::MAX {
        Some(page + 1)
    } else {
        None
    }
}

} // verus!

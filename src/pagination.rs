//! Fixed-size pages over an ordered result, 1-indexed.
use vstd::prelude::*;
use crate::error::{Failure, Refusal};

verus! {

/// Rows per page.
pub const PAGE_LIMIT: i16 = 10;

/// Offset of the first row of `page` at the default page size.
#[allow(non_snake_case)]
pub fn OFFSET(page: i16) -> (r: i16)
    requires
        1 <= page <= 3277,
    ensures
        r == (page - 1) * PAGE_LIMIT,
{
    (page - 1) * PAGE_LIMIT
}

/// Start and end, within a result of `len` rows, of `page` at `limit` rows a
/// page.
pub open spec fn window(len: int, page: int, limit: int) -> (int, int) {
    let start = if (page - 1) * limit < len {
        (page - 1) * limit
    } else {
        len
    };
    let end = if start + limit < len {
        start + limit
    } else {
        len
    };
    (start, end)
}

/// The rows of `page` of `rows`, at `limit` rows a page.
pub open spec fn page_of<T>(rows: Seq<T>, page: int, limit: int) -> Seq<T> {
    rows.subrange(window(rows.len() as int, page, limit).0, window(rows.len() as int, page, limit).1)
}

/// Offset of the first row of `page` at `limit` rows a page.
pub fn page_offset(page: u16, limit: u16) -> (r: u64)
    requires
        page >= 1,
    ensures
        r == (page - 1) * limit,
{
    let p: u64 = page as u64 - 1;
    let l: u64 = limit as u64;
    assert(p * l <= 0xffff * 0xffff) by (nonlinear_arith)
        requires
            p <= 0xffff,
            l <= 0xffff,
    ;
    p * l
}

/// The page asked for, or `InvalidPage` for a page below 1.
pub fn check_page(page: u16) -> (r: Result<u16, Failure>)
    ensures
        page >= 1 ==> r == Ok::<u16, Failure>(page),
        page == 0 ==> r == Err::<u16, Failure>(Failure::BadRequest(Refusal::InvalidPage)),
{
    if page == 0 {
        Err(Failure::BadRequest(Refusal::InvalidPage))
    } else {
        Ok(page)
    }
}

/// Bounds of `page` at `limit` rows a page over `len` rows.
pub fn page_bounds(len: usize, page: u16, limit: u16) -> (r: (usize, usize))
    requires
        page >= 1,
    ensures
        r.0 as int == window(len as int, page as int, limit as int).0,
        r.1 as int == window(len as int, page as int, limit as int).1,
{
    let offset: u64 = page_offset(page, limit);
    let start: usize = if offset < len as u64 {
        offset as usize
    } else {
        len
    };
    let end: usize = if (limit as usize) < len - start {
        start + limit as usize
    } else {
        len
    };
    (start, end)
}

} // verus!

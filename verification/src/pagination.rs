//! Paging of list endpoints: page numbers, page sizes, offsets and page
//! counts.
use vstd::prelude::*;

verus! {

/// The `page` and `per_page` query parameters of a list endpoint.
#[derive(Debug, Clone, Copy, PartialEq, Eq, Structural)]
pub struct PaginationParams {
    pub page: Option<u64>,
    pub per_page: Option<u64>,
}

/// The page asked for: `page` (default 1), at least 1.
pub open spec fn page_of(page: Option<u64>) -> u64 {
    match page {
        Some(p) => if p < 1 {
            1
        } else {
            p
        },
        None => 1,
    }
}

/// The page size asked for: `per_page` (default `default`), at most `cap`.
pub open spec fn page_size_of(per_page: Option<u64>, default: u64, cap: u64) -> u64 {
    let n = match per_page {
        Some(p) => p,
        None => default,
    };
    if n > cap {
        cap
    } else {
        n
    }
}

/// The page number of a request: its `page`, or 1; never below 1.
pub fn page_number(page: Option<u64>) -> (p: u64)
    ensures
        p == page_of(page),
        p >= 1,
{
    match page {
        Some(p) => if p < 1 {
            1
        } else {
            p
        },
        None => 1,
    }
}

/// The page size of a request: its `per_page`, or `default`; never above
/// `cap`.
pub fn page_size(per_page: Option<u64>, default: u64, cap: u64) -> (n: u64)
    ensures
        n == page_size_of(per_page, default, cap),
        n <= cap,
{
    let n = match per_page {
        Some(p) => p,
        None => default,
    };
    if n > cap {
        cap
    } else {
        n
    }
}

/// How many rows precede a page.
pub fn page_offset(page: u64, per_page: u64) -> (o: u64)
    requires
        page >= 1,
        (page - 1) * per_page <= u64::MAX,
    ensures
        o == (page - 1) * per_page,
{
    (page - 1) * per_page
}

/// The number of pages `total` rows fill, `per_page` to a page (the last
/// one possibly partial).
pub fn total_pages(total: u64, per_page: u64) -> (n: u64)
    requires
        per_page > 0,
    ensures
        n * per_page >= total,
        n == 0 || (n - 1) * per_page < total,
{
    let q = total / per_page;
    assert(total % per_page != 0 ==> q < total) by (nonlinear_arith)
        requires
            per_page > 0,
            q == total / per_page,
    ;
    let n = if total % per_page == 0 {
        q
    } else {
        q + 1
    };
    proof {
        assert(q * per_page + total % per_page == total) by (nonlinear_arith)
            requires
                per_page > 0,
                q == total / per_page,
        ;
        if total % per_page == 0 {
            assert(n * per_page >= total);
            if n > 0 {
                assert((n - 1) * per_page == n * per_page - per_page) by (nonlinear_arith);
            }
        } else {
            assert(n * per_page == q * per_page + per_page) by (nonlinear_arith)
                requires
                    n == q + 1,
            ;
            assert((n - 1) * per_page == q * per_page) by (nonlinear_arith)
                requires
                    n == q + 1,
            ;
        }
    }
    n
}

/// A page window of a list: page number, size and offset.
#[derive(Debug, Clone, Copy, PartialEq, Eq, Structural)]
pub struct PageWindow {
    pub page: u64,
    pub per_page: u64,
    pub offset: u64,
}

/// The window a list request selects: `page` at least 1, `per_page`
/// defaulted and capped, and the offset of the page.
pub fn page_window(params: PaginationParams, default: u64, cap: u64) -> (w: PageWindow)
    requires
        (page_of(params.page) - 1) * page_size_of(params.per_page, default, cap) <= u64::MAX,
    ensures
        w.page == page_of(params.page),
        w.per_page == page_size_of(params.per_page, default, cap),
        w.offset == (w.page - 1) * w.per_page,
{
    let page = page_number(params.page);
    let per_page = page_size(params.per_page, default, cap);
    PageWindow { page, per_page, offset: page_offset(page, per_page) }
}

} // verus!

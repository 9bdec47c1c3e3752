use vstd::prelude::*;

verus! {

pub const DEFAULT_PAGE: i64 = 1;

pub const DEFAULT_PER_PAGE: i64 = 25;

pub open spec fn page_or_default(page: Option<i64>) -> int {
    match page {
        Some(v) => v as int,
        None => DEFAULT_PAGE as int,
    }
}

pub open spec fn per_page_or_default(per_page: Option<i64>) -> int {
    match per_page {
        Some(v) => v as int,
        None => DEFAULT_PER_PAGE as int,
    }
}

/// The page a listing request asks for; the first page when none is given.
pub fn requested_page(page: &Option<i64>) -> (r: i64)
    ensures
        r == page_or_default(*page),
{
    match page {
        Some(v) => *v,
        None => DEFAULT_PAGE,
    }
}

/// The page size a listing request asks for; twenty-five when none is given.
pub fn requested_per_page(per_page: &Option<i64>) -> (r: i64)
    ensures
        r == per_page_or_default(*per_page),
{
    match per_page {
        Some(v) => *v,
        None => DEFAULT_PER_PAGE,
    }
}

/// How many records a page skips: pages are numbered from one.
pub fn page_offset(page: i64, per_page: i64) -> (r: i64)
    requires
        page >= 1,
        per_page >= 0,
        (page - 1) * per_page <= i64::MAX,
    ensures
        r == (page - 1) * per_page,
{
    (page - 1) * per_page
}

/// Ceiling division: the number of pages needed to show `total` records at
/// `per_page` records per page.
pub fn total_pages(total: i64, per_page: i64) -> (r: i64)
    requires
        total >= 0,
        per_page > 0,
        total + per_page <= i64::MAX,
    ensures
        r == (total + per_page - 1) / (per_page as int),
        r * per_page >= total,
        (r - 1) * per_page < total,
{
    proof {
        lemma_ceil_div_bounds(total as int, per_page as int);
    }
    (total + per_page - 1) / per_page
}

/// The ceiling quotient covers the total, and one page fewer does not.
proof fn lemma_ceil_div_bounds(total: int, per_page: int)
    requires
        total >= 0,
        per_page > 0,
    ensures
        ((total + per_page - 1) / per_page) * per_page >= total,
        ((total + per_page - 1) / per_page - 1) * per_page < total,
{
    let q = (total + per_page - 1) / per_page;
    let m = (total + per_page - 1) % per_page;
    assert(q * per_page == total + per_page - 1 - m) by (nonlinear_arith)
        requires
            per_page > 0,
            q == (total + per_page - 1) / per_page,
            m == (total + per_page - 1) % per_page,
    ;
    assert(0 <= m < per_page) by (nonlinear_arith)
        requires
            per_page > 0,
            m == (total + per_page - 1) % per_page,
    ;
    assert((q - 1) * per_page == q * per_page - per_page) by (nonlinear_arith);
}

} // verus!

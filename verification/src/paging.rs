//! Page arithmetic: how many pages a listing has, and which rows a page holds.
//!
//! Pages are numbered from 1. Page 0 and every page after the last one are
//! empty; that is not an error. A page size of 0 has no meaning and is left
//! to the caller to reject.

use vstd::prelude::*;

verus! {

/// The number of pages that `total_rows` rows fill when a page holds
/// `page_size` of them: the quotient, rounded up.
pub open spec fn total_pages(total_rows: nat, page_size: nat) -> nat
    recommends
        page_size > 0,
{
    if total_rows % page_size == 0 {
        total_rows / page_size
    } else {
        total_rows / page_size + 1
    }
}

/// The position of the first row of a page and the position just after its
/// last row. Both are `total_rows` where the page is out of range.
pub open spec fn page_bounds(total_rows: nat, page: nat, page_size: nat) -> (nat, nat)
    recommends
        page_size > 0,
{
    if page == 0 || (page - 1) * page_size >= total_rows {
        (total_rows, total_rows)
    } else if page * page_size >= total_rows {
        (((page - 1) * page_size) as nat, total_rows)
    } else {
        (((page - 1) * page_size) as nat, page * page_size)
    }
}

/// The rows of a page.
pub open spec fn page_of<T>(rows: Seq<T>, page: nat, page_size: nat) -> Seq<T>
    recommends
        page_size > 0,
{
    let (start, end) = page_bounds(rows.len(), page, page_size);
    rows.subrange(start as int, end as int)
}

/// The rounded-up quotient is a number of pages that holds every row, and one
/// page fewer would not.
pub proof fn lemma_total_pages_is_ceiling(total_rows: nat, page_size: nat)
    requires
        page_size > 0,
    ensures
        total_pages(total_rows, page_size) * page_size >= total_rows,
        total_rows > 0 ==> (total_pages(total_rows, page_size) - 1) * page_size < total_rows,
        total_rows == 0 <==> total_pages(total_rows, page_size) == 0,
{
    let q = total_rows / page_size;
    let r = total_rows % page_size;
    let pages = total_pages(total_rows, page_size);
    assert(total_rows == q * page_size + r && 0 <= r < page_size) by (nonlinear_arith)
        requires
            page_size > 0,
            q == total_rows / page_size,
            r == total_rows % page_size,
    ;
    assert(pages * page_size >= total_rows && (total_rows > 0 ==> (pages - 1) * page_size
        < total_rows) && (total_rows == 0 <==> pages == 0)) by (nonlinear_arith)
        requires
            total_rows == q * page_size + r,
            0 <= r < page_size,
            0 <= q,
            pages == if r == 0 { q } else { q + 1 },
    ;
}

/// No smaller number of pages holds every row.
pub proof fn lemma_total_pages_is_least(total_rows: nat, page_size: nat, pages: nat)
    requires
        page_size > 0,
        pages * page_size >= total_rows,
    ensures
        pages >= total_pages(total_rows, page_size),
{
    lemma_total_pages_is_ceiling(total_rows, page_size);
    let least = total_pages(total_rows, page_size);
    if total_rows > 0 {
        assert(pages >= least) by (nonlinear_arith)
            requires
                pages * page_size >= total_rows,
                (least - 1) * page_size < total_rows,
                page_size > 0,
        ;
    }
}

/// A page holds rows exactly when its number lies between 1 and the number of
/// pages.
pub proof fn lemma_page_in_range(total_rows: nat, page: nat, page_size: nat)
    requires
        page_size > 0,
    ensures
        1 <= page <= total_pages(total_rows, page_size) <==> page >= 1 && (page - 1) * page_size
            < total_rows,
{
    let q = total_rows / page_size;
    let r = total_rows % page_size;
    let pages = total_pages(total_rows, page_size);
    assert(total_rows == q * page_size + r && 0 <= r < page_size) by (nonlinear_arith)
        requires
            page_size > 0,
            q == total_rows / page_size,
            r == total_rows % page_size,
    ;
    if page >= 1 {
        assert(page <= pages <==> (page - 1) * page_size < total_rows) by (nonlinear_arith)
            requires
                page >= 1,
                total_rows == q * page_size + r,
                0 <= r < page_size,
                0 <= q,
                pages == if r == 0 { q } else { q + 1 },
        ;
    }
}

/// The bounds of a page lie inside the listing, and the page is never longer
/// than the page size.
pub proof fn lemma_page_bounds_are_in_range(total_rows: nat, page: nat, page_size: nat)
    requires
        page_size > 0,
    ensures
        page_bounds(total_rows, page, page_size).0 <= page_bounds(total_rows, page, page_size).1
            <= total_rows,
        page_bounds(total_rows, page, page_size).1 - page_bounds(total_rows, page, page_size).0
            <= page_size,
{
    if page > 0 {
        assert(page * page_size == (page - 1) * page_size + page_size) by (nonlinear_arith);
    }
}

/// The number of pages of a listing.
pub fn page_count(total_rows: u64, page_size: u64) -> (pages: u64)
    requires
        page_size > 0,
    ensures
        pages == total_pages(total_rows as nat, page_size as nat),
{
    let full = total_rows / page_size;
    if total_rows % page_size == 0 {
        full
    } else {
        assert(full < u64::MAX) by (nonlinear_arith)
            requires
                full == total_rows as int / page_size as int,
                (total_rows as int) % (page_size as int) != 0,
                page_size > 0,
                total_rows <= u64::MAX,
        ;
        full + 1
    }
}

/// Where a page starts and ends in a listing of `total_rows` rows: the
/// position of its first row, and the position just after its last one. The
/// two are equal where the page holds no row.
pub fn page_range(total_rows: u64, page: u64, page_size: u64) -> (range: (u64, u64))
    requires
        page_size > 0,
    ensures
        (range.0 as nat, range.1 as nat) == page_bounds(
            total_rows as nat,
            page as nat,
            page_size as nat,
        ),
        range.0 <= range.1 <= total_rows,
{
    if page == 0 {
        return (total_rows, total_rows);
    }
    let before = page - 1;
    // `before * page_size` may not fit: compare by division first.
    if before > total_rows / page_size {
        assert(before * page_size >= total_rows) by (nonlinear_arith)
            requires
                before > total_rows as int / page_size as int,
                page_size > 0,
                total_rows >= 0,
        ;
        return (total_rows, total_rows);
    }
    assert(before * page_size <= total_rows) by (nonlinear_arith)
        requires
            before <= total_rows as int / page_size as int,
            page_size > 0,
            before >= 0,
            total_rows >= 0,
    ;
    let start = before * page_size;
    if start >= total_rows {
        return (total_rows, total_rows);
    }
    let left = total_rows - start;
    assert(page * page_size == start + page_size) by (nonlinear_arith)
        requires
            start == before * page_size,
            before == page - 1,
    ;
    if page_size >= left {
        (start, total_rows)
    } else {
        (start, start + page_size)
    }
}

} // verus!

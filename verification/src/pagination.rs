//! Paginated listing.
//!
//! Every listing endpoint answers `(page, limit)` queries, `page` counted
//! from 1, with a page of results plus the total count.  Page 1 with limit 0
//! is a pure count query: no results, true total.  Concatenating all pages for
//! a fixed limit reproduces the underlying sequence exactly
//! ([`lemma_pagination_round_trip`]).

use vstd::prelude::*;

verus! {

/// Where page `page` starts in a sequence of length `len` (clipped to `len`).
pub open spec fn page_start(len: int, page: int, limit: int) -> int {
    if (page - 1) * limit <= len {
        (page - 1) * limit
    } else {
        len
    }
}

/// Where page `page` ends (clipped to `len`).
pub open spec fn page_end(len: int, page: int, limit: int) -> int {
    if (page - 1) * limit + limit <= len {
        (page - 1) * limit + limit
    } else {
        len
    }
}

/// The slice of `s` that page `page` holds.
pub open spec fn page_of<T>(s: Seq<T>, page: int, limit: int) -> Seq<T>
    recommends
        page >= 1,
{
    s.subrange(page_start(s.len() as int, page, limit), page_end(s.len() as int, page, limit))
}

/// Compute the index bounds of one page.
pub fn page_bounds(len: usize, page: usize, limit: usize) -> (r: (usize, usize))
    requires
        page >= 1,
    ensures
        r.0 == page_start(len as int, page as int, limit as int),
        r.1 == page_end(len as int, page as int, limit as int),
        r.0 <= r.1 <= len,
{
    proof {
        assert((page - 1) * limit >= 0) by (nonlinear_arith)
            requires
                page >= 1,
                limit >= 0,
        ;
    }
    let a: usize;
    let b: usize;
    match (page - 1).checked_mul(limit) {
        None => {
            a = len;
            b = len;
        },
        Some(off) => {
            a = if off <= len {
                off
            } else {
                len
            };
            match off.checked_add(limit) {
                None => {
                    b = len;
                },
                Some(endoff) => {
                    b = if endoff <= len {
                        endoff
                    } else {
                        len
                    };
                },
            }
        },
    }
    (a, b)
}

/// Pages 1 through `pages`, in order, joined into one sequence.
pub open spec fn pages_concat<T>(s: Seq<T>, limit: int, pages: int) -> Seq<T>
    decreases pages,
{
    if pages <= 0 {
        Seq::empty()
    } else {
        pages_concat(s, limit, pages - 1) + page_of(s, pages, limit)
    }
}

/// Joining the first `pages` pages yields exactly the first
/// `pages * limit` elements (clipped to the length).
pub proof fn lemma_pages_concat_take<T>(s: Seq<T>, limit: int, pages: int)
    requires
        limit >= 1,
        pages >= 0,
    ensures
        pages_concat(s, limit, pages) == s.take(
            if pages * limit <= s.len() {
                pages * limit
            } else {
                s.len() as int
            },
        ),
    decreases pages,
{
    let len = s.len() as int;
    if pages == 0 {
        assert(0 * limit == 0) by (nonlinear_arith);
        assert(pages_concat(s, limit, 0) =~= s.take(0));
    } else {
        lemma_pages_concat_take(s, limit, pages - 1);
        assert((pages - 1) * limit + limit == pages * limit) by (nonlinear_arith);
        assert((pages - 1) * limit >= 0) by (nonlinear_arith)
            requires
                pages >= 1,
                limit >= 1,
        ;
        assert((pages - 1) * limit <= pages * limit) by (nonlinear_arith)
            requires
                limit >= 1,
                pages >= 1,
        ;
        let prev = if (pages - 1) * limit <= len {
            (pages - 1) * limit
        } else {
            len
        };
        let cur = if pages * limit <= len {
            pages * limit
        } else {
            len
        };
        assert(page_start(len, pages, limit) == prev);
        assert(page_end(len, pages, limit) == cur);
        assert(pages_concat(s, limit, pages) =~= s.take(cur));
    }
}

/// Pagination round-trip: for any limit of at least one, the pages of a
/// sequence, taken in page order until they cover its length, join back into
/// exactly that sequence — no duplicates, no omissions.
pub proof fn lemma_pagination_round_trip<T>(s: Seq<T>, limit: int, pages: int)
    requires
        limit >= 1,
        pages >= 0,
        pages * limit >= s.len(),
    ensures
        pages_concat(s, limit, pages) == s,
{
    lemma_pages_concat_take(s, limit, pages);
    assert(s.take(s.len() as int) =~= s);
}

} // verus!

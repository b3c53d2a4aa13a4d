//! Paging over the user table by page number: the page that is served for
//! the one asked for, and where its rows begin.

use vstd::prelude::*;

verus! {

/// A user as the table of the first schema stores it.
#[derive(Debug)]
pub struct User {
    pub id: Option<i32>,
    pub username: String,
    pub email: String,
    pub age: Option<i32>,
}

/// One page of users with its figures.
#[derive(Debug)]
pub struct PaginatedUsers {
    pub users: Vec<User>,
    pub total: i64,
    pub total_pages: i64,
    pub current_page: i64,
    pub limit: i64,
}

/// The figures of a page before its rows are read.
#[derive(Debug, Clone, Copy, PartialEq, Eq, Structural)]
pub struct PageBounds {
    pub total_pages: i64,
    pub current_page: i64,
    pub offset: i64,
}

/// How many pages of `limit` rows hold `total` rows.
pub open spec fn page_count(total: int, limit: int) -> int {
    (total + limit - 1) / limit
}

/// The page that is served for the page `page`: the first for a page below
/// one; the last, or the first where there is no row, for a page past the
/// last; else the page itself.
pub open spec fn served(page: int, pages: int) -> int {
    if page <= 0 {
        1
    } else if page > pages {
        if pages > 1 {
            pages
        } else {
            1
        }
    } else {
        page
    }
}

/// The figures of the page that is served for the page `page` of `limit`
/// rows out of `total` rows. The limit is positive, the total is not
/// negative, and their sum fits 64 bits.
pub fn page_bounds(page: i64, limit: i64, total: i64) -> (bounds: PageBounds)
    requires
        limit > 0,
        total >= 0,
        total + limit <= i64::MAX,
    ensures
        bounds.total_pages == page_count(total as int, limit as int),
        bounds.current_page == served(page as int, bounds.total_pages as int),
        bounds.offset == (bounds.current_page - 1) * limit,
        1 <= bounds.current_page,
        0 <= bounds.offset,
        bounds.offset < total || bounds.current_page == 1,
{
    let total_pages = (total + limit - 1) / limit;
    let current_page = if page <= 0 {
        1
    } else if page > total_pages {
        if total_pages > 1 {
            total_pages
        } else {
            1
        }
    } else {
        page
    };
    proof {
        let t = total + limit - 1;
        let l = limit as int;
        assert(t == l * (t / l) + t % l && 0 <= t % l < l) by (nonlinear_arith)
            requires
                l > 0,
        ;
        assert(0 <= t / l <= t) by (nonlinear_arith)
            requires
                l > 0,
                t >= 0,
        ;
        assert((current_page - 1) * l <= (total_pages - 1) * l || current_page == 1)
            by (nonlinear_arith)
            requires
                l > 0,
                1 <= current_page,
                current_page <= total_pages || current_page == 1,
        ;
        assert((total_pages - 1) * l == l * total_pages - l) by (nonlinear_arith);
        assert((current_page - 1) * l >= 0) by (nonlinear_arith)
            requires
                l > 0,
                1 <= current_page,
        ;
        assert(l * total_pages == l * (t / l));
        assert((current_page - 1) * l < total || current_page == 1);
        if current_page == 1 {
            assert((current_page - 1) * l == 0) by (nonlinear_arith)
                requires
                    current_page == 1,
            ;
        }
    }
    let offset = (current_page - 1) * limit;
    PageBounds { total_pages, current_page, offset }
}

/// The page of users with its figures, given the rows that the table
/// handed out for the bounds.
pub fn users_page(users: Vec<User>, total: i64, limit: i64, bounds: PageBounds) -> (page:
    PaginatedUsers)
    ensures
        page.users == users,
        page.total == total,
        page.total_pages == bounds.total_pages,
        page.current_page == bounds.current_page,
        page.limit == limit,
{
    PaginatedUsers {
        users,
        total,
        total_pages: bounds.total_pages,
        current_page: bounds.current_page,
        limit,
    }
}

} // verus!

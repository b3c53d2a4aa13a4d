//! Paging: the query that asks for a page, the checks on it, and the
//! figures that describe the page that was served.

use vstd::prelude::*;

verus! {

/// The page size where a query names none, or zero.
pub const DEFAULT_PAGE_SIZE: u64 = 10;

/// The largest page size that is served.
pub const MAX_PAGE_SIZE: u64 = 100;

/// An answer with a code, a message and optional data.
#[derive(Debug)]
pub struct CommonResponse<T> {
    pub code: u16,
    pub message: String,
    pub data: Option<T>,
}

/// The figures of one served page.
#[derive(Debug, Clone, Copy, PartialEq, Eq, Structural)]
pub struct PaginationInfo {
    pub total: u64,
    pub total_pages: u64,
    pub current_page: u64,
    pub limit: u64,
    pub has_next: bool,
    pub has_previous: bool,
}

/// The part of a query that asks for a page.
#[derive(Debug, Clone, Copy, PartialEq, Eq, Structural)]
pub struct PaginationQuery {
    pub page: Option<u64>,
    pub limit: Option<u64>,
}

/// A query for categories: a page and a selection.
#[derive(Debug)]
pub struct CategoryQuery {
    pub page: Option<u64>,
    pub limit: Option<u64>,
    pub select: Option<String>,
}

/// A query for tags: a page and a selection.
#[derive(Debug)]
pub struct TagsQuery {
    pub page: Option<u64>,
    pub limit: Option<u64>,
    pub select: Option<String>,
}

/// One page of rows with its figures.
#[derive(Debug)]
pub struct PaginatedResponse<T> {
    pub data: Vec<T>,
    pub pagination: PaginationInfo,
}

/// The page of a query that names none.
pub fn default_page() -> (page: Option<u64>)
    ensures
        page == Some(1u64),
{
    Some(1)
}

/// The page size of a query that names none.
pub fn default_size() -> (limit: Option<u64>)
    ensures
        limit == Some(DEFAULT_PAGE_SIZE),
{
    Some(DEFAULT_PAGE_SIZE)
}

/// The page size of a query that names none, as a number.
pub fn default_limit() -> (limit: u64)
    ensures
        limit == DEFAULT_PAGE_SIZE,
{
    DEFAULT_PAGE_SIZE
}

/// What is wrong with a paging query.
#[derive(Debug, Clone, Copy, PartialEq, Eq, Structural)]
pub enum QueryFault {
    /// The page is below one.
    PageBelowOne,
    /// The page size is above the largest that is served.
    LimitAboveMax,
}

/// The first fault of a paging query: a named page must be at least one, a
/// named page size at most the largest; the page is looked at first.
pub open spec fn fault_of(page: Option<u64>, limit: Option<u64>) -> Option<QueryFault> {
    if page matches Some(p) && p < 1 {
        Some(QueryFault::PageBelowOne)
    } else if limit matches Some(l) && l > MAX_PAGE_SIZE {
        Some(QueryFault::LimitAboveMax)
    } else {
        None
    }
}

/// The page size that is served for the one asked for: the default in
/// place of none or zero, and never above the largest.
pub open spec fn served_limit(limit: Option<u64>) -> u64 {
    match limit {
        None => DEFAULT_PAGE_SIZE,
        Some(l) => if l == 0 {
            DEFAULT_PAGE_SIZE
        } else if l > MAX_PAGE_SIZE {
            MAX_PAGE_SIZE
        } else {
            l
        },
    }
}

/// The page that is served for the one asked for: the first in place of
/// none.
pub open spec fn served_page(page: Option<u64>) -> u64 {
    match page {
        None => 1,
        Some(p) => p,
    }
}

/// How many pages of `limit` rows hold `total` rows.
pub open spec fn pages_for(total: u64, limit: u64) -> int {
    (total + limit - 1) / (limit as int)
}

/// The rows to skip and to take for a page.
#[derive(Debug, Clone, Copy, PartialEq, Eq, Structural)]
pub struct PageWindow {
    pub page: u64,
    pub limit: u64,
    pub offset: u64,
}

/// The message that tells a client of `fault`.
pub fn fault_message(fault: QueryFault) -> (message: String)
    ensures
        message@ == match fault {
            QueryFault::PageBelowOne => "页码必须大于1"@,
            QueryFault::LimitAboveMax => "每页数量不能超过100"@,
        },
{
    match fault {
        QueryFault::PageBelowOne => "页码必须大于1".to_owned(),
        QueryFault::LimitAboveMax => "每页数量不能超过100".to_owned(),
    }
}

/// Checks a page and a page size as a query names them.
pub fn validate_paging(page: Option<u64>, limit: Option<u64>) -> (checked: Result<(), QueryFault>)
    ensures
        match checked {
            Ok(()) => fault_of(page, limit) is None,
            Err(fault) => fault_of(page, limit) == Some(fault),
        },
{
    if let Some(p) = page {
        if p < 1 {
            return Err(QueryFault::PageBelowOne);
        }
    }
    if let Some(l) = limit {
        if l > MAX_PAGE_SIZE {
            return Err(QueryFault::LimitAboveMax);
        }
    }
    Ok(())
}

/// The page size that is served for the page size `limit`: the default in
/// place of zero, and never above the largest.
pub fn clamp_limit(limit: u64) -> (served: u64)
    ensures
        served == served_limit(Some(limit)),
        1 <= served <= MAX_PAGE_SIZE,
{
    if limit == 0 {
        DEFAULT_PAGE_SIZE
    } else if limit > MAX_PAGE_SIZE {
        MAX_PAGE_SIZE
    } else {
        limit
    }
}

/// The rows to skip and to take for the page that a query asks for. The
/// page is at least one, and the rows before it can be counted in 64 bits.
pub fn page_window(page: Option<u64>, limit: Option<u64>) -> (window: PageWindow)
    requires
        served_page(page) >= 1,
        (served_page(page) - 1) * served_limit(limit) <= u64::MAX,
    ensures
        window.page == served_page(page),
        window.limit == served_limit(limit),
        window.offset == (served_page(page) - 1) * served_limit(limit),
        1 <= window.limit <= MAX_PAGE_SIZE,
{
    let page = match page {
        Some(p) => p,
        None => 1,
    };
    let limit = match limit {
        Some(l) => clamp_limit(l),
        None => DEFAULT_PAGE_SIZE,
    };
    let offset = (page - 1) * limit;
    PageWindow { page, limit, offset }
}

/// The figures of the page `page` of `limit` rows out of `total` rows.
pub fn page_info(total: u64, page: u64, limit: u64) -> (info: PaginationInfo)
    requires
        limit > 0,
        total + limit <= u64::MAX,
    ensures
        info.total == total,
        info.total_pages == pages_for(total, limit),
        info.current_page == page,
        info.limit == limit,
        info.has_next == (page < pages_for(total, limit)),
        info.has_previous == (page > 1),
{
    let total_pages = (total + limit - 1) / limit;
    PaginationInfo {
        total,
        total_pages,
        current_page: page,
        limit,
        has_next: page < total_pages,
        has_previous: page > 1,
    }
}

impl PaginationQuery {
    /// Checks this query.
    pub fn validate(&self) -> (checked: Result<(), QueryFault>)
        ensures
            match checked {
                Ok(()) => fault_of(self.page, self.limit) is None,
                Err(fault) => fault_of(self.page, self.limit) == Some(fault),
            },
    {
        validate_paging(self.page, self.limit)
    }
}

/// The pages hold every row and no page is empty but the only one of an
/// empty table: with `n` pages, `n - 1` pages hold fewer rows than there are
/// and `n` pages hold them all.
pub proof fn lemma_pages_cover_rows(total: u64, limit: u64)
    requires
        limit > 0,
    ensures
        pages_for(total, limit) * limit >= total,
        total > 0 ==> (pages_for(total, limit) - 1) * limit < total,
        total == 0 ==> pages_for(total, limit) == 0,
{
    let n = pages_for(total, limit);
    let l = limit as int;
    let t = total + limit - 1;
    assert(t == l * (t / l) + t % l) by (nonlinear_arith)
        requires
            l > 0,
    ;
    assert(0 <= t % l < l) by (nonlinear_arith)
        requires
            l > 0,
    ;
    assert(n * l == l * n) by (nonlinear_arith);
    assert((n - 1) * l == n * l - l) by (nonlinear_arith);
    if total == 0 {
        assert(t / l == 0) by (nonlinear_arith)
            requires
                0 <= t < l,
        ;
    }
}

} // verus!

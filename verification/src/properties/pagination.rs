//! Pages: where a page of results starts, and how many pages a search has.

use vstd::prelude::*;

verus! {

/// The quotient of `a` by `b` rounded toward zero, as machine integers
/// divide.
pub open spec fn truncating_quotient(a: int, b: int) -> int
    recommends
        b != 0,
{
    if a >= 0 && b > 0 {
        a / b
    } else if a >= 0 {
        -(a / (-b))
    } else if b > 0 {
        -((-a) / b)
    } else {
        (-a) / (-b)
    }
}

/// The number of rows that come before a page: `(page - 1) * limit`, and
/// none where no page is asked for.
pub open spec fn offset_of(page: Option<i64>, limit: i64) -> int {
    match page {
        Some(p) => (p - 1) * limit,
        None => 0,
    }
}

/// The number of pages of a search: `total_count / limit + 1`, rounded
/// toward zero, and one page where there is no limit. A total that is an
/// exact multiple of the limit therefore counts one page beyond the last
/// full one.
pub open spec fn total_pages_of(total_count: i64, limit: Option<i64>) -> int {
    match limit {
        Some(l) => truncating_quotient(total_count as int, l as int) + 1,
        None => 1,
    }
}

/// Whether the offset of a page can be computed in 64 bits.
pub open spec fn offset_fits(page: Option<i64>, limit: Option<i64>) -> bool {
    limit matches Some(l) ==> {
        &&& page matches Some(p) ==> p > i64::MIN
        &&& i64::MIN <= offset_of(page, l) <= i64::MAX
    }
}

/// Whether the number of pages can be computed in 64 bits.
pub open spec fn total_pages_fits(total_count: i64, limit: Option<i64>) -> bool {
    limit matches Some(l) ==> {
        &&& l != 0
        &&& i64::MIN <= truncating_quotient(total_count as int, l as int) < i64::MAX
    }
}

/// The slice of the ordered results that a query returns.
#[derive(Clone, Copy, Debug, PartialEq, Eq, Structural)]
pub struct PageWindow {
    /// The most rows to return.
    pub limit: i64,
    /// The rows to pass over first.
    pub offset: i64,
}

/// The window that a page and a limit stand for: none without a limit, and
/// from the first row where no page is given.
pub open spec fn window_of(page: Option<i64>, limit: Option<i64>) -> Option<PageWindow> {
    match limit {
        Some(l) => Some(PageWindow { limit: l, offset: offset_of(page, l) as i64 }),
        None => None,
    }
}

/// The window of results that a page and a limit ask for.
pub fn page_window(page: Option<i64>, limit: Option<i64>) -> (window: Option<PageWindow>)
    requires
        offset_fits(page, limit),
    ensures
        window == window_of(page, limit),
{
    match limit {
        Some(l) => {
            let offset: i64 = match page {
                Some(p) => (p - 1) * l,
                None => 0,
            };
            Some(PageWindow { limit: l, offset })
        },
        None => None,
    }
}

/// The number of pages that `total_count` rows make under a limit.
pub fn total_pages(total_count: i64, limit: Option<i64>) -> (pages: i64)
    requires
        total_pages_fits(total_count, limit),
    ensures
        pages == total_pages_of(total_count, limit),
{
    match limit {
        Some(l) => {
            match total_count.checked_div(l) {
                Some(quotient) => quotient + 1,
                None => 1,
            }
        },
        None => 1,
    }
}

/// The rows that come before the page asked for: none where there is no
/// limit, and so no window.
pub open spec fn start_of(page: Option<i64>, limit: Option<i64>) -> int {
    match limit {
        Some(l) => offset_of(page, l),
        None => 0,
    }
}

/// Where a page starts and how many pages there are.
#[derive(Clone, Copy, Debug, PartialEq, Eq, Structural)]
pub struct Pagination {
    /// The rows that come before the page; zero where nothing is skipped.
    pub offset: i64,
    pub total_pages: i64,
}

/// The offset of the page asked for and the number of pages.
pub fn paginate(total_count: i64, page: Option<i64>, limit: Option<i64>) -> (result: Pagination)
    requires
        offset_fits(page, limit),
        total_pages_fits(total_count, limit),
    ensures
        result.offset == start_of(page, limit),
        result.total_pages == total_pages_of(total_count, limit),
{
    let offset: i64 = match page_window(page, limit) {
        Some(window) => window.offset,
        None => 0,
    };
    Pagination { offset, total_pages: total_pages(total_count, limit) }
}

/// Why a page or a limit is turned away.
#[derive(Clone, Copy, Debug, PartialEq, Eq, Structural)]
pub enum PagingError {
    /// The page is zero or negative.
    PageNotPositive,
    /// The limit is zero or negative.
    LimitNotPositive,
    /// The page lies so far out that its offset does not fit in 64 bits.
    OffsetOutOfRange,
}

impl PagingError {
    /// What is said to a caller whose page or limit is turned away.
    pub open spec fn message_of(self) -> Seq<char> {
        match self {
            PagingError::PageNotPositive => "page must be positive"@,
            PagingError::LimitNotPositive => "limit must be positive"@,
            PagingError::OffsetOutOfRange => "page is out of range"@,
        }
    }

    /// What is said to a caller whose page or limit is turned away.
    pub fn message(&self) -> (message: String)
        ensures
            message@ == self.message_of(),
    {
        match self {
            PagingError::PageNotPositive => String::from_str("page must be positive"),
            PagingError::LimitNotPositive => String::from_str("limit must be positive"),
            PagingError::OffsetOutOfRange => String::from_str("page is out of range"),
        }
    }
}

/// The verdict on a page and a limit as a caller supplied them: each must
/// be positive where it is given, and the offset must fit in 64 bits. The
/// page is looked at first, then the limit, then the offset.
pub open spec fn paging_verdict(page: Option<i64>, limit: Option<i64>) -> Result<(), PagingError> {
    if page matches Some(p) && p <= 0 {
        Err(PagingError::PageNotPositive)
    } else if limit matches Some(l) && l <= 0 {
        Err(PagingError::LimitNotPositive)
    } else if limit matches Some(l) && offset_of(page, l) > i64::MAX {
        Err(PagingError::OffsetOutOfRange)
    } else {
        Ok(())
    }
}

/// Turns away a page or a limit that is not positive, or too large to
/// compute with.
pub fn check_paging(page: Option<i64>, limit: Option<i64>) -> (verdict: Result<(), PagingError>)
    ensures
        verdict == paging_verdict(page, limit),
        verdict is Ok ==> offset_fits(page, limit),
        verdict is Ok ==> (limit matches Some(l) ==> l > 0),
{
    if let Some(p) = page {
        if p <= 0 {
            return Err(PagingError::PageNotPositive);
        }
    }
    if let Some(l) = limit {
        if l <= 0 {
            return Err(PagingError::LimitNotPositive);
        }
        if let Some(p) = page {
            assert((p - 1) * l >= 0) by (nonlinear_arith)
                requires
                    p >= 1,
                    l >= 1,
            ;
            match (p - 1).checked_mul(l) {
                Some(_) => {},
                None => {
                    return Err(PagingError::OffsetOutOfRange);
                },
            }
        }
    }
    Ok(())
}

/// The number of pages where it can be computed in 64 bits, and nothing
/// where the limit is zero or the number too large.
pub fn checked_total_pages(total_count: i64, limit: Option<i64>) -> (pages: Option<i64>)
    ensures
        pages is Some == total_pages_fits(total_count, limit),
        pages matches Some(n) ==> n == total_pages_of(total_count, limit),
{
    match limit {
        Some(l) => match total_count.checked_div(l) {
            Some(quotient) => quotient.checked_add(1),
            None => None,
        },
        None => Some(1),
    }
}

} // verus!

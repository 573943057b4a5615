use property_listings::properties::pagination::{
    check_paging, checked_total_pages, page_window, paginate, total_pages, PageWindow, Pagination,
    PagingError,
};

#[test]
fn total_pages_is_quotient_plus_one() {
    assert_eq!(total_pages(10, Some(5)), 3);
    assert_eq!(total_pages(0, Some(5)), 1);
    assert_eq!(total_pages(4, Some(5)), 1);
    assert_eq!(total_pages(5, Some(5)), 2);
    assert_eq!(total_pages(11, Some(5)), 3);
    assert_eq!(total_pages(7, Some(1)), 8);
    assert_eq!(total_pages(i64::MAX, Some(2)), i64::MAX / 2 + 1);
}

#[test]
fn total_pages_without_limit_is_one() {
    assert_eq!(total_pages(0, None), 1);
    assert_eq!(total_pages(1_000_000, None), 1);
    assert_eq!(total_pages(i64::MAX, None), 1);
}

#[test]
fn total_pages_rounds_toward_zero_on_negative_numbers() {
    assert_eq!(total_pages(-7, Some(2)), -2);
    assert_eq!(total_pages(7, Some(-2)), -2);
    assert_eq!(total_pages(-7, Some(-2)), 4);
    assert_eq!(total_pages(-1, Some(5)), 1);
    assert_eq!(total_pages(i64::MIN, Some(1)), i64::MIN + 1);
}

#[test]
fn checked_total_pages_refuses_what_cannot_be_computed() {
    assert_eq!(checked_total_pages(10, Some(5)), Some(3));
    assert_eq!(checked_total_pages(10, None), Some(1));
    assert_eq!(checked_total_pages(10, Some(0)), None);
    assert_eq!(checked_total_pages(i64::MAX, Some(1)), None);
    assert_eq!(checked_total_pages(i64::MIN, Some(-1)), None);
    assert_eq!(checked_total_pages(i64::MAX - 1, Some(1)), Some(i64::MAX));
    assert_eq!(checked_total_pages(7, Some(-2)), Some(-2));
}

#[test]
fn window_starts_behind_the_pages_before() {
    assert_eq!(page_window(Some(1), Some(10)), Some(PageWindow { limit: 10, offset: 0 }));
    assert_eq!(page_window(Some(2), Some(10)), Some(PageWindow { limit: 10, offset: 10 }));
    assert_eq!(page_window(Some(7), Some(25)), Some(PageWindow { limit: 25, offset: 150 }));
    assert_eq!(page_window(None, Some(25)), Some(PageWindow { limit: 25, offset: 0 }));
    assert_eq!(page_window(Some(7), None), None);
    assert_eq!(page_window(None, None), None);
}

#[test]
fn window_is_not_validated() {
    assert_eq!(page_window(Some(0), Some(10)), Some(PageWindow { limit: 10, offset: -10 }));
    assert_eq!(page_window(Some(-2), Some(10)), Some(PageWindow { limit: 10, offset: -30 }));
    assert_eq!(page_window(Some(3), Some(-4)), Some(PageWindow { limit: -4, offset: -8 }));
    assert_eq!(page_window(Some(3), Some(0)), Some(PageWindow { limit: 0, offset: 0 }));
}

#[test]
fn paginate_gives_offset_and_pages() {
    assert_eq!(paginate(10, Some(2), Some(5)), Pagination { offset: 5, total_pages: 3 });
    assert_eq!(paginate(10, None, Some(5)), Pagination { offset: 0, total_pages: 3 });
    assert_eq!(paginate(10, Some(2), None), Pagination { offset: 0, total_pages: 1 });
    assert_eq!(paginate(0, None, None), Pagination { offset: 0, total_pages: 1 });
    assert_eq!(paginate(101, Some(11), Some(10)), Pagination { offset: 100, total_pages: 11 });
}

#[test]
fn paging_check_accepts_positive_values() {
    assert_eq!(check_paging(None, None), Ok(()));
    assert_eq!(check_paging(Some(1), Some(1)), Ok(()));
    assert_eq!(check_paging(Some(3), None), Ok(()));
    assert_eq!(check_paging(None, Some(50)), Ok(()));
    assert_eq!(check_paging(Some(i64::MAX), Some(1)), Ok(()));
    assert_eq!(check_paging(Some(2), Some(i64::MAX)), Ok(()));
}

#[test]
fn paging_check_names_what_is_wrong() {
    assert_eq!(check_paging(Some(0), Some(5)), Err(PagingError::PageNotPositive));
    assert_eq!(check_paging(Some(-1), None), Err(PagingError::PageNotPositive));
    assert_eq!(check_paging(Some(0), Some(0)), Err(PagingError::PageNotPositive));
    assert_eq!(check_paging(Some(1), Some(0)), Err(PagingError::LimitNotPositive));
    assert_eq!(check_paging(None, Some(-3)), Err(PagingError::LimitNotPositive));
    assert_eq!(check_paging(Some(3), Some(i64::MAX)), Err(PagingError::OffsetOutOfRange));
    assert_eq!(check_paging(Some(i64::MAX), Some(i64::MAX)), Err(PagingError::OffsetOutOfRange));
}

#[test]
fn paging_errors_say_what_is_wrong() {
    assert_eq!(PagingError::PageNotPositive.message(), "page must be positive");
    assert_eq!(PagingError::LimitNotPositive.message(), "limit must be positive");
    assert_eq!(PagingError::OffsetOutOfRange.message(), "page is out of range");
}

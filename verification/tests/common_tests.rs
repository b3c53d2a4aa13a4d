use mysql_user_crud::api::{
    check_id, check_page, check_update, check_uuid, email_is_new, name_is_new, RequestFault,
};
use mysql_user_crud::error::AppError;
use mysql_user_crud::common::{
    clamp_limit, default_limit, default_page, default_size, fault_message, page_info,
    page_window, validate_paging, PaginationQuery, QueryFault, DEFAULT_PAGE_SIZE, MAX_PAGE_SIZE,
};
use mysql_user_crud::database::page_bounds;
use mysql_user_crud::query_parameter::Query;

#[test]
fn defaults() {
    assert_eq!(default_page(), Some(1));
    assert_eq!(default_size(), Some(10));
    assert_eq!(default_limit(), 10);
    assert_eq!(DEFAULT_PAGE_SIZE, 10);
    assert_eq!(MAX_PAGE_SIZE, 100);
}

#[test]
fn paging_query_is_checked() {
    assert_eq!(validate_paging(None, None), Ok(()));
    assert_eq!(validate_paging(Some(1), Some(100)), Ok(()));
    assert_eq!(validate_paging(Some(1), Some(0)), Ok(()));
    assert_eq!(validate_paging(Some(0), Some(10)), Err(QueryFault::PageBelowOne));
    assert_eq!(validate_paging(Some(1), Some(101)), Err(QueryFault::LimitAboveMax));
    assert_eq!(validate_paging(Some(0), Some(101)), Err(QueryFault::PageBelowOne));
    let query = PaginationQuery { page: Some(3), limit: Some(500) };
    assert_eq!(query.validate(), Err(QueryFault::LimitAboveMax));
    assert_eq!(fault_message(QueryFault::PageBelowOne), "页码必须大于1");
    assert_eq!(fault_message(QueryFault::LimitAboveMax), "每页数量不能超过100");
}

#[test]
fn window_of_a_page() {
    let w = page_window(None, None);
    assert_eq!((w.page, w.limit, w.offset), (1, 10, 0));
    let w = page_window(Some(3), Some(25));
    assert_eq!((w.page, w.limit, w.offset), (3, 25, 50));
    let w = page_window(Some(2), Some(0));
    assert_eq!((w.page, w.limit, w.offset), (2, 10, 10));
    let w = page_window(Some(2), Some(1000));
    assert_eq!((w.page, w.limit, w.offset), (2, 100, 100));
}

#[test]
fn figures_of_a_page() {
    let info = page_info(95, 1, 10);
    assert_eq!(info.total, 95);
    assert_eq!(info.total_pages, 10);
    assert_eq!(info.current_page, 1);
    assert_eq!(info.limit, 10);
    assert!(info.has_next);
    assert!(!info.has_previous);

    let info = page_info(95, 10, 10);
    assert!(!info.has_next);
    assert!(info.has_previous);

    let info = page_info(100, 10, 10);
    assert_eq!(info.total_pages, 10);
    let info = page_info(101, 10, 10);
    assert_eq!(info.total_pages, 11);
    assert!(info.has_next);

    let info = page_info(0, 1, 10);
    assert_eq!(info.total_pages, 0);
    assert!(!info.has_next);
    assert!(!info.has_previous);
}

#[test]
fn bounds_of_a_numbered_page() {
    let b = page_bounds(1, 10, 95);
    assert_eq!((b.total_pages, b.current_page, b.offset), (10, 1, 0));
    let b = page_bounds(10, 10, 95);
    assert_eq!((b.total_pages, b.current_page, b.offset), (10, 10, 90));
    let b = page_bounds(11, 10, 95);
    assert_eq!((b.total_pages, b.current_page, b.offset), (10, 10, 90));
    let b = page_bounds(0, 10, 95);
    assert_eq!((b.total_pages, b.current_page, b.offset), (10, 1, 0));
    let b = page_bounds(-5, 10, 95);
    assert_eq!((b.total_pages, b.current_page, b.offset), (10, 1, 0));
    let b = page_bounds(3, 10, 0);
    assert_eq!((b.total_pages, b.current_page, b.offset), (0, 1, 0));
}

#[test]
fn query_hands_out_its_value() {
    assert_eq!(Query(5).into_inner(), 5);
    assert_eq!(Query("q".to_string()).into_inner(), "q");
    let q = Query(PaginationQuery { page: Some(2), limit: None });
    assert_eq!(q.into_inner().page, Some(2));
}

#[test]
fn first_handlers_check_what_is_named() {
    assert_eq!(check_id(1), Ok(()));
    assert_eq!(check_id(0), Err(RequestFault::IdNotPositive));
    assert_eq!(check_id(-7), Err(RequestFault::IdNotPositive));
    assert_eq!(check_page(0), Err(RequestFault::PageIsZero));
    assert_eq!(check_page(1), Ok(()));
    assert_eq!(check_uuid("0b5f3c3e-7f0a-4a57-9d3c-2f8a5e1b9c10"), Ok(()));
    assert_eq!(check_uuid(""), Err(RequestFault::BadUuid));
    assert_eq!(check_uuid("0b5f3c3e"), Err(RequestFault::BadUuid));
    assert_eq!(check_update("bob", "b@x.io"), Ok(()));
    assert_eq!(check_update("  \t", "b@x.io"), Err(RequestFault::BlankUserName));
    assert_eq!(check_update("bob", " "), Err(RequestFault::BlankEmail));
    assert_eq!(check_update("", ""), Err(RequestFault::BlankUserName));
    assert_eq!(RequestFault::IdNotPositive.message(), "用户ID必须大于0");
    assert_eq!(RequestFault::PageIsZero.message(), "页码必须大于0");
    assert_eq!(RequestFault::BadUuid.message(), "无效的UUID格式");
    assert_eq!(RequestFault::BlankUserName.message(), "用户名不能为空");
    assert_eq!(RequestFault::BlankEmail.message(), "邮箱不能为空");
}

#[test]
fn served_page_size() {
    assert_eq!(clamp_limit(0), 10);
    assert_eq!(clamp_limit(1), 1);
    assert_eq!(clamp_limit(100), 100);
    assert_eq!(clamp_limit(101), 100);
    assert_eq!(clamp_limit(u64::MAX), 100);
}

#[test]
fn a_taken_name_or_address_is_a_conflict() {
    assert!(name_is_new("bob", 0).is_ok());
    assert!(email_is_new("b@x.io", 0).is_ok());
    match name_is_new("bob", 1) {
        Err(AppError::Conflict(m)) => assert_eq!(m, "用户名 'bob' 已存在"),
        other => panic!("got {:?}", other),
    }
    match email_is_new("b@x.io", 3) {
        Err(AppError::Conflict(m)) => assert_eq!(m, "邮箱 'b@x.io' 已被注册"),
        other => panic!("got {:?}", other),
    }
}

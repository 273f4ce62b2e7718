use social_media_app::utils::pagination::{PaginatedResponse, PaginationParams};

fn params(page: Option<i64>, limit: Option<i64>, with_count: bool) -> PaginationParams {
    PaginationParams { page, limit, with_count }
}

#[test]
fn resolve_uses_defaults() {
    assert_eq!(params(None, None, false).resolve(), (1, 10));
}

#[test]
fn resolve_clamps_page_and_limit() {
    assert_eq!(params(Some(0), Some(0), false).resolve(), (1, 1));
    assert_eq!(params(Some(-7), Some(1000), false).resolve(), (1, 100));
    assert_eq!(params(Some(3), Some(25), false).resolve(), (3, 25));
}

#[test]
fn offset_skips_earlier_pages() {
    assert_eq!(params(Some(3), Some(25), false).offset(), 50);
    assert_eq!(params(None, None, false).offset(), 0);
    assert_eq!(params(Some(2), Some(500), false).offset(), 100);
}

#[test]
fn consecutive_pages_are_adjacent() {
    let p = params(Some(4), Some(7), false);
    let q = params(Some(5), Some(7), false);
    assert_eq!(q.offset(), p.offset() + p.limit());
}

#[test]
fn getters_report_resolved_values() {
    let p = params(Some(2), Some(150), true);
    assert_eq!(p.page(), 2);
    assert_eq!(p.limit(), 100);
    assert_eq!(p.fetch_limit(), 101);
    assert!(p.include_count());
    assert!(!params(None, None, false).include_count());
}

#[test]
fn requested_keeps_raw_values() {
    assert_eq!(params(None, None, false).requested(), (1, 10));
    assert_eq!(params(Some(-3), Some(500), false).requested(), (-3, 500));
}

#[test]
fn paginated_response_carries_meta() {
    let r = PaginatedResponse::new(vec![1, 2, 3], 2, 3, true);
    assert_eq!(r.items, vec![1, 2, 3]);
    assert_eq!(r.meta.page, 2);
    assert_eq!(r.meta.limit, 3);
    assert!(r.meta.has_more);
    assert_eq!(r.meta.total_items, None);
    let r = r.with_total(9);
    assert_eq!(r.meta.total_items, Some(9));
    assert_eq!(r.items.len(), 3);
}

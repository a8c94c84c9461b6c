use blog_api::response::{ApiResponse, Meta};

#[test]
fn total_pages_is_ceiling_of_quotient() {
    let r = ApiResponse::with_meta(vec![1u32, 2, 3], 25, 10, 0);
    assert!(r.success);
    assert_eq!(r.meta.total_items, 25);
    assert_eq!(r.meta.limit, 10);
    assert_eq!(r.meta.offset, 0);
    assert_eq!(r.meta.total_pages, 3);
}

#[test]
fn total_pages_exact_division() {
    let r = ApiResponse::with_meta(vec![0u8; 10], 30, 10, 10);
    assert_eq!(r.meta.total_pages, 3);
}

#[test]
fn total_pages_zero_items() {
    let r = ApiResponse::with_meta(Vec::<u8>::new(), 0, 10, 0);
    assert_eq!(r.meta.total_pages, 0);
    assert!(r.success);
}

#[test]
fn total_pages_zero_limit() {
    let r = ApiResponse::with_meta(Vec::<u8>::new(), 17, 0, 0);
    assert_eq!(r.meta.total_pages, 0);
}

#[test]
fn total_pages_single_partial_page() {
    let r = ApiResponse::with_meta(vec![1u8], 1, 100, 0);
    assert_eq!(r.meta.total_pages, 1);
}

#[test]
fn offset_beyond_total_is_empty_success() {
    // The store's page window past the total is empty; the envelope
    // still reports success, with the same pagination arithmetic.
    let items: Vec<u8> = Vec::new();
    let r = ApiResponse::with_meta(items, 5, 10, 100);
    assert!(r.success);
    assert_eq!(r.data.as_ref().map(|v| v.len()), Some(0));
    assert_eq!(r.meta.total_items, 5);
    assert_eq!(r.meta.total_pages, 1);
}

#[test]
fn single_resource_envelope_uses_default_meta() {
    let r = ApiResponse::success(42u32);
    assert!(r.success);
    assert_eq!(r.data, Some(42));
    assert_eq!(r.meta.total_items, 0);
    assert_eq!(r.meta.offset, 0);
    assert_eq!(r.meta.limit, 10);
    assert_eq!(r.meta.total_pages, 0);
}

#[test]
fn default_meta_block() {
    let m = Meta::default();
    assert_eq!(m.total_items, 0);
    assert_eq!(m.offset, 0);
    assert_eq!(m.limit, 10);
    assert_eq!(m.total_pages, 0);
}

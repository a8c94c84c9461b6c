use blog_api::query::{
    like_pattern, posts_count_query, posts_page_query, posts_page_params, search_matches,
    tag_page_query, tags_page_query, SqlParam,
};
use blog_api::sort::{
    direction_sql, field_sql, resolve_direction, resolve_sort_field, OrderDirection, SortField,
};

#[test]
fn injection_attempt_resolves_to_default_field() {
    let f = resolve_sort_field(Some("id; DROP TABLE posts"));
    assert_eq!(f, SortField::Id);
    assert_eq!(field_sql(f), "id");
}

#[test]
fn unlisted_field_resolves_to_default() {
    assert_eq!(resolve_sort_field(Some("password")), SortField::Id);
    assert_eq!(resolve_sort_field(None), SortField::Id);
}

#[test]
fn whitelisted_fields_resolve_to_themselves() {
    assert_eq!(resolve_sort_field(Some("title")), SortField::Title);
    assert_eq!(resolve_sort_field(Some("created_at")), SortField::CreatedAt);
    assert_eq!(resolve_sort_field(Some("updated_at")), SortField::UpdatedAt);
    assert_eq!(resolve_sort_field(Some("view_count")), SortField::ViewCount);
    assert_eq!(resolve_sort_field(Some("like_count")), SortField::LikeCount);
    assert_eq!(resolve_sort_field(Some("id")), SortField::Id);
}

#[test]
fn direction_defaults_to_ascending() {
    assert_eq!(resolve_direction(None), OrderDirection::Asc);
    assert_eq!(resolve_direction(Some(OrderDirection::Asc)), OrderDirection::Asc);
    assert_eq!(resolve_direction(Some(OrderDirection::Desc)), OrderDirection::Desc);
    assert_eq!(direction_sql(OrderDirection::Asc), "ASC");
    assert_eq!(direction_sql(OrderDirection::Desc), "DESC");
}

#[test]
fn page_query_text_plain() {
    let q = posts_page_query(SortField::Id, OrderDirection::Asc, false);
    assert_eq!(
        q,
        "SELECT p.id, p.title, p.body, p.created_by, p.slug, p.photo_url, p.created_at, \
         p.updated_at, p.deleted_at, p.published, p.view_count, p.like_count, u.id, u.username \
         FROM posts p INNER JOIN users u ON p.created_by = u.id WHERE p.published = true AND \
         p.deleted_at IS NULL ORDER BY p.id ASC LIMIT $1 OFFSET $2"
    );
}

#[test]
fn page_query_text_with_search_shifts_placeholders() {
    let q = posts_page_query(SortField::Title, OrderDirection::Desc, true);
    assert!(q.ends_with("ORDER BY p.title DESC LIMIT $2 OFFSET $3"));
    assert!(q.contains("p.title ILIKE $1 OR p.body ILIKE $1 OR u.username ILIKE $1"));
}

#[test]
fn count_and_page_share_filters() {
    let c = posts_count_query(true);
    let q = posts_page_query(SortField::Id, OrderDirection::Asc, true);
    let filter = " WHERE p.published = true AND p.deleted_at IS NULL AND (p.title ILIKE $1 \
                  OR p.body ILIKE $1 OR u.username ILIKE $1)";
    assert!(c.ends_with(filter));
    assert!(q.contains(filter));
}

#[test]
fn tag_page_query_binds_tag_first() {
    let q = tag_page_query(SortField::Id, OrderDirection::Asc, false);
    assert!(q.starts_with("SELECT DISTINCT"));
    assert!(q.contains("WHERE t.name = $1"));
    assert!(q.ends_with("LIMIT $2 OFFSET $3"));
}

#[test]
fn tags_listing_query_text() {
    assert_eq!(
        tags_page_query(),
        "SELECT id, name, created_at FROM tags ORDER BY name LIMIT $1 OFFSET $2"
    );
}

#[test]
fn like_pattern_wraps_term() {
    assert_eq!(like_pattern("rust"), "%rust%");
    assert_eq!(like_pattern(""), "%%");
}

#[test]
fn page_params_order_is_search_then_limit_then_offset() {
    let ps = posts_page_params(Some("rust"), 10, 20);
    assert_eq!(ps.len(), 3);
    assert!(matches!(&ps[0], SqlParam::Text(t) if t.as_str() == "%rust%"));
    assert!(matches!(&ps[1], SqlParam::Int(10)));
    assert!(matches!(&ps[2], SqlParam::Int(20)));
    let ps = posts_page_params(None, 5, 0);
    assert_eq!(ps.len(), 2);
    assert!(matches!(&ps[0], SqlParam::Int(5)));
    assert!(matches!(&ps[1], SqlParam::Int(0)));
}

#[test]
fn search_matches_any_of_three_columns_case_insensitively() {
    assert!(search_matches("Hello World", "body text", "alice", "WORLD"));
    assert!(search_matches("title", "Needle In Haystack", "alice", "needle"));
    assert!(search_matches("title", "body", "CamelCaseUser", "camelcase"));
    assert!(!search_matches("title", "body", "alice", "zebra"));
}

#[test]
fn search_matches_empty_term_matches_everything() {
    assert!(search_matches("", "", "", ""));
}

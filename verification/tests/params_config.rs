use blog_api::config::{parse_optional_secs, parse_port, parse_u64_str, Config, ConfigError, EnvVars};
use blog_api::params::{
    get_pagination_params, validate_pagination_query, validate_post_path, validate_random_query,
    validate_tag_path, PaginationQuery, PostPath, RandomPostQuery, TagPath,
};
use blog_api::sort::OrderDirection;

fn query(offset: Option<i64>, limit: Option<i64>, search: Option<&str>) -> PaginationQuery {
    PaginationQuery {
        offset,
        limit,
        search: search.map(|s| s.to_string()),
        order_by: None,
        order_direction: None,
    }
}

#[test]
fn pagination_bounds_are_enforced() {
    assert!(validate_pagination_query(&query(Some(0), Some(1), None)));
    assert!(validate_pagination_query(&query(Some(10_000), Some(100), None)));
    assert!(!validate_pagination_query(&query(Some(-1), None, None)));
    assert!(!validate_pagination_query(&query(Some(10_001), None, None)));
    assert!(!validate_pagination_query(&query(None, Some(0), None)));
    assert!(!validate_pagination_query(&query(None, Some(101), None)));
}

#[test]
fn search_length_bound_is_enforced() {
    let ok = "s".repeat(200);
    let too_long = "s".repeat(201);
    assert!(validate_pagination_query(&query(None, None, Some(&ok))));
    assert!(!validate_pagination_query(&query(None, None, Some(&too_long))));
}

#[test]
fn random_limit_bound_is_enforced() {
    assert!(validate_random_query(&RandomPostQuery { limit: None }));
    assert!(validate_random_query(&RandomPostQuery { limit: Some(100) }));
    assert!(!validate_random_query(&RandomPostQuery { limit: Some(0) }));
    assert!(!validate_random_query(&RandomPostQuery { limit: Some(101) }));
}

#[test]
fn path_parameters_reject_foreign_characters() {
    assert!(validate_tag_path(&TagPath { tag: "rust_lang-1".to_string() }));
    assert!(!validate_tag_path(&TagPath { tag: "".to_string() }));
    assert!(!validate_tag_path(&TagPath { tag: "no spaces".to_string() }));
    assert!(!validate_tag_path(&TagPath { tag: "semi;colon".to_string() }));
    assert!(validate_post_path(&PostPath {
        username: "alice_1".to_string(),
        slug: "my-first-post".to_string(),
    }));
    assert!(!validate_post_path(&PostPath {
        username: "alice".to_string(),
        slug: "under_score".to_string(),
    }));
    assert!(!validate_post_path(&PostPath {
        username: "a b".to_string(),
        slug: "ok".to_string(),
    }));
}

#[test]
fn pagination_defaults_applied() {
    let q = PaginationQuery {
        offset: None,
        limit: None,
        search: Some("term".to_string()),
        order_by: Some("title".to_string()),
        order_direction: Some(OrderDirection::Desc),
    };
    let (offset, limit, search, order_by, dir) = get_pagination_params(&q);
    assert_eq!(offset, 0);
    assert_eq!(limit, 10);
    assert_eq!(search, Some("term"));
    assert_eq!(order_by, Some("title"));
    assert_eq!(dir, Some(OrderDirection::Desc));
}

#[test]
fn decimal_parsing_accepts_numbers_only() {
    assert_eq!(parse_u64_str("0"), Some(0));
    assert_eq!(parse_u64_str("123"), Some(123));
    assert_eq!(parse_u64_str("+42"), Some(42));
    assert_eq!(parse_u64_str("18446744073709551615"), Some(u64::MAX));
    assert_eq!(parse_u64_str("18446744073709551616"), None);
    assert_eq!(parse_u64_str(""), None);
    assert_eq!(parse_u64_str("+"), None);
    assert_eq!(parse_u64_str("12a"), None);
    assert_eq!(parse_u64_str("-3"), None);
}

#[test]
fn port_parsing_with_default_and_bound() {
    assert_eq!(parse_port(None), Some(8000));
    assert_eq!(parse_port(Some("9090")), Some(9090));
    assert_eq!(parse_port(Some("65536")), None);
    assert_eq!(parse_port(Some("what")), None);
}

#[test]
fn optional_durations_fall_back_and_zero_means_no_limit() {
    assert_eq!(parse_optional_secs(None, 600), Some(600));
    assert_eq!(parse_optional_secs(Some("0"), 600), None);
    assert_eq!(parse_optional_secs(Some("90"), 600), Some(90));
    assert_eq!(parse_optional_secs(Some("junk"), 600), Some(600));
}

fn env(port: Option<&str>, max_size: Option<&str>) -> EnvVars {
    EnvVars {
        port: port.map(|s| s.to_string()),
        database_url: None,
        db_pool_max_size: max_size.map(|s| s.to_string()),
        db_pool_connection_timeout: None,
        db_pool_max_lifetime: None,
        db_pool_idle_timeout: None,
    }
}

#[test]
fn config_defaults_when_environment_is_empty() {
    let c = Config::from_env(&env(None, None)).unwrap();
    assert_eq!(c.port, 8000);
    assert_eq!(
        c.database_url,
        "host=localhost user=postgres password=postgres dbname=rocketbackend"
    );
    assert_eq!(c.db_pool.max_size, 20);
    assert_eq!(c.db_pool.connection_timeout_secs, 30);
    assert_eq!(c.db_pool.max_lifetime_secs, Some(1800));
    assert_eq!(c.db_pool.idle_timeout_secs, Some(600));
}

#[test]
fn config_reports_the_offending_variable() {
    match Config::from_env(&env(Some("not-a-port"), None)) {
        Err(ConfigError::InvalidNumber(k)) => assert_eq!(k, "PORT"),
        _ => panic!("expected an invalid-number error"),
    }
    match Config::from_env(&env(None, Some("many"))) {
        Err(ConfigError::InvalidNumber(k)) => assert_eq!(k, "DB_POOL_MAX_SIZE"),
        _ => panic!("expected an invalid-number error"),
    }
}

#[test]
fn config_reads_given_values() {
    let mut e = env(Some("8080"), Some("5"));
    e.db_pool_connection_timeout = Some("10".to_string());
    e.db_pool_max_lifetime = Some("0".to_string());
    let c = Config::from_env(&e).unwrap();
    assert_eq!(c.port, 8080);
    assert_eq!(c.db_pool.max_size, 5);
    assert_eq!(c.db_pool.connection_timeout_secs, 10);
    assert_eq!(c.db_pool.max_lifetime_secs, None);
}

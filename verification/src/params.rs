//! Request parameter shapes and their validation bounds.
//!
//! Out-of-bounds input is rejected before any query is composed; the
//! only defaulting allowed past this point is the documented whitelist
//! fallback for sort requests and the fixed defaults for absent values.

use vstd::prelude::*;
use vstd::string::StrSliceExecFns;
use crate::sort::OrderDirection;

verus! {

/// Largest accepted page offset.
pub const MAX_OFFSET: i64 = 10_000;

/// Largest accepted page size.
pub const MAX_LIMIT: i64 = 100;

/// Longest accepted search term, in characters.
pub const MAX_SEARCH_LEN: usize = 200;

/// Query parameters of the post listings.
pub struct PaginationQuery {
    pub offset: Option<i64>,
    pub limit: Option<i64>,
    pub search: Option<String>,
    pub order_by: Option<String>,
    pub order_direction: Option<OrderDirection>,
}

/// Query parameter of the random sample.
pub struct RandomPostQuery {
    pub limit: Option<i64>,
}

/// Query parameters of the tag listing.
pub struct TagPaginationQuery {
    pub offset: Option<i64>,
    pub limit: Option<i64>,
}

/// Path parameter of the tag-filtered listing.
pub struct TagPath {
    pub tag: String,
}

/// Path parameters of the single-resource lookup.
pub struct PostPath {
    pub username: String,
    pub slug: String,
}

/// Characters allowed in usernames and tag names.
pub open spec fn is_name_char(c: char) -> bool {
    ||| 'a' <= c && c <= 'z'
    ||| 'A' <= c && c <= 'Z'
    ||| '0' <= c && c <= '9'
    ||| c == '_'
    ||| c == '-'
}

/// Characters allowed in slugs.
pub open spec fn is_slug_char(c: char) -> bool {
    ||| 'a' <= c && c <= 'z'
    ||| 'A' <= c && c <= 'Z'
    ||| '0' <= c && c <= '9'
    ||| c == '-'
}

/// Whether every character of `s` is a name character.
pub open spec fn all_name_chars(s: Seq<char>) -> bool {
    forall|i: int| 0 <= i < s.len() ==> is_name_char(#[trigger] s[i])
}

/// Whether every character of `s` is a slug character.
pub open spec fn all_slug_chars(s: Seq<char>) -> bool {
    forall|i: int| 0 <= i < s.len() ==> is_slug_char(#[trigger] s[i])
}

/// Check that a string holds name characters only.
pub fn check_name_chars(s: &str) -> (r: bool)
    ensures
        r == all_name_chars(s@),
{
    let n = s.unicode_len();
    let mut i: usize = 0;
    while i < n
        invariant
            i <= n,
            n == s@.len(),
            forall|j: int| 0 <= j < i ==> is_name_char(#[trigger] s@[j]),
        decreases n - i,
    {
        let c = s.get_char(i);
        let ok = (c >= 'a' && c <= 'z') || (c >= 'A' && c <= 'Z') || (c >= '0' && c <= '9') || c
            == '_' || c == '-';
        if !ok {
            return false;
        }
        i += 1;
    }
    true
}

/// Check that a string holds slug characters only.
pub fn check_slug_chars(s: &str) -> (r: bool)
    ensures
        r == all_slug_chars(s@),
{
    let n = s.unicode_len();
    let mut i: usize = 0;
    while i < n
        invariant
            i <= n,
            n == s@.len(),
            forall|j: int| 0 <= j < i ==> is_slug_char(#[trigger] s@[j]),
        decreases n - i,
    {
        let c = s.get_char(i);
        let ok = (c >= 'a' && c <= 'z') || (c >= 'A' && c <= 'Z') || (c >= '0' && c <= '9') || c
            == '-';
        if !ok {
            return false;
        }
        i += 1;
    }
    true
}

/// Bounds of a listing request: offset within 0..=10000, limit within
/// 1..=100, search no longer than 200 characters.
pub open spec fn pagination_query_valid(q: &PaginationQuery) -> bool {
    &&& match q.offset {
        Some(o) => 0 <= o <= MAX_OFFSET,
        None => true,
    }
    &&& match q.limit {
        Some(l) => 1 <= l <= MAX_LIMIT,
        None => true,
    }
    &&& match q.search {
        Some(s) => s@.len() <= MAX_SEARCH_LEN,
        None => true,
    }
}

/// Validate a listing request against its bounds.
pub fn validate_pagination_query(q: &PaginationQuery) -> (r: bool)
    ensures
        r == pagination_query_valid(q),
{
    let offset_ok = match q.offset {
        Some(o) => 0 <= o && o <= MAX_OFFSET,
        None => true,
    };
    let limit_ok = match q.limit {
        Some(l) => 1 <= l && l <= MAX_LIMIT,
        None => true,
    };
    let search_ok = match &q.search {
        Some(s) => s.as_str().unicode_len() <= MAX_SEARCH_LEN,
        None => true,
    };
    offset_ok && limit_ok && search_ok
}

/// Bound of a random-sample request: limit within 1..=100.
pub open spec fn random_query_valid(q: &RandomPostQuery) -> bool {
    match q.limit {
        Some(l) => 1 <= l <= MAX_LIMIT,
        None => true,
    }
}

/// Validate a random-sample request against its bound.
pub fn validate_random_query(q: &RandomPostQuery) -> (r: bool)
    ensures
        r == random_query_valid(q),
{
    match q.limit {
        Some(l) => 1 <= l && l <= MAX_LIMIT,
        None => true,
    }
}

/// Bounds of a tag-listing request.
pub open spec fn tag_pagination_query_valid(q: &TagPaginationQuery) -> bool {
    &&& match q.offset {
        Some(o) => 0 <= o <= MAX_OFFSET,
        None => true,
    }
    &&& match q.limit {
        Some(l) => 1 <= l <= MAX_LIMIT,
        None => true,
    }
}

/// Validate a tag-listing request against its bounds.
pub fn validate_tag_pagination_query(q: &TagPaginationQuery) -> (r: bool)
    ensures
        r == tag_pagination_query_valid(q),
{
    let offset_ok = match q.offset {
        Some(o) => 0 <= o && o <= MAX_OFFSET,
        None => true,
    };
    let limit_ok = match q.limit {
        Some(l) => 1 <= l && l <= MAX_LIMIT,
        None => true,
    };
    offset_ok && limit_ok
}

/// Bounds of a tag path parameter: 1 to 50 name characters.
pub open spec fn tag_path_valid(p: &TagPath) -> bool {
    &&& 1 <= p.tag@.len() <= 50
    &&& all_name_chars(p.tag@)
}

/// Validate a tag path parameter.
pub fn validate_tag_path(p: &TagPath) -> (r: bool)
    ensures
        r == tag_path_valid(p),
{
    let n = p.tag.as_str().unicode_len();
    1 <= n && n <= 50 && check_name_chars(p.tag.as_str())
}

/// Bounds of the lookup path parameters: a 1-to-50-character username of
/// name characters and a 1-to-100-character slug of slug characters.
pub open spec fn post_path_valid(p: &PostPath) -> bool {
    &&& 1 <= p.username@.len() <= 50
    &&& all_name_chars(p.username@)
    &&& 1 <= p.slug@.len() <= 100
    &&& all_slug_chars(p.slug@)
}

/// Validate the lookup path parameters.
pub fn validate_post_path(p: &PostPath) -> (r: bool)
    ensures
        r == post_path_valid(p),
{
    let un = p.username.as_str().unicode_len();
    let sn = p.slug.as_str().unicode_len();
    1 <= un && un <= 50 && check_name_chars(p.username.as_str()) && 1 <= sn && sn <= 100
        && check_slug_chars(p.slug.as_str())
}

/// Apply the listing defaults: offset 0, limit 10, and the optional
/// parameters passed through by reference.
pub fn get_pagination_params(query: &PaginationQuery) -> (r: (
    i64,
    i64,
    Option<&str>,
    Option<&str>,
    Option<OrderDirection>,
))
    ensures
        r.0 == match query.offset {
            Some(o) => o,
            None => 0,
        },
        r.1 == match query.limit {
            Some(l) => l,
            None => 10,
        },
        (match r.2 {
            Some(s) => query.search is Some && s@ == query.search->0@,
            None => query.search is None,
        }),
        (match r.3 {
            Some(s) => query.order_by is Some && s@ == query.order_by->0@,
            None => query.order_by is None,
        }),
        r.4 == query.order_direction,
{
    let offset = match query.offset {
        Some(o) => o,
        None => 0,
    };
    let limit = match query.limit {
        Some(l) => l,
        None => 10,
    };
    let search = match &query.search {
        Some(s) => Some(s.as_str()),
        None => None,
    };
    let order_by = match &query.order_by {
        Some(s) => Some(s.as_str()),
        None => None,
    };
    (offset, limit, search, order_by, query.order_direction)
}

} // verus!

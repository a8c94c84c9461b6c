//! Query composition: the parameterized SQL text and the bound-parameter
//! vector for each access pattern.
//!
//! The query text is assembled from literal fragments and the resolved
//! sort field and direction alone; user input travels exclusively in the
//! parameter vector.  A count query and its page query share the same
//! filter predicates, and the page parameters are the count parameters
//! followed by the trailing limit/offset pair, so the total count and
//! the returned page always describe the same matching set.

use vstd::prelude::*;
use vstd::string::StringExecFns;
use crate::sort::{
    SortField, OrderDirection, field_ident, direction_keyword, field_sql, direction_sql,
    spec_resolve_field_opt, spec_resolve_direction_opt, opt_str_view, resolve_sort_field,
    resolve_direction,
};
use crate::text::{is_substring, lower, contains_ci};

verus! {

/// A value bound to a `$n` placeholder of a query.
pub enum SqlParam {
    Text(String),
    Int(i64),
    Id(u128),
    IdList(Vec<u128>),
}

/// The shape of a bound parameter, for contracts.
pub enum ParamValue {
    Text(Seq<char>),
    Int(int),
    Id(int),
    IdList(Seq<int>),
}

impl View for SqlParam {
    type V = ParamValue;

    open spec fn view(&self) -> ParamValue {
        match self {
            SqlParam::Text(s) => ParamValue::Text(s@),
            SqlParam::Int(i) => ParamValue::Int(*i as int),
            SqlParam::Id(u) => ParamValue::Id(*u as int),
            SqlParam::IdList(v) => ParamValue::IdList(v@.map_values(|x: u128| x as int)),
        }
    }
}

/// The views of a parameter vector, in binding order.
pub open spec fn params_view(ps: Seq<SqlParam>) -> Seq<ParamValue> {
    ps.map_values(|p: SqlParam| p.view())
}

/// The fuzzy-match pattern a search term is bound as: the term wrapped
/// in wildcards on both ends.
pub open spec fn spec_like_pattern(term: Seq<char>) -> Seq<char> {
    "%"@ + term + "%"@
}

/// Wrap a search term in wildcards; it is bound as one parameter and
/// never spliced into the query text.
pub fn like_pattern(term: &str) -> (r: String)
    ensures
        r@ == spec_like_pattern(term@),
{
    let mut r = String::new();
    r.append("%");
    r.append(term);
    r.append("%");
    proof {
        assert(r@ =~= spec_like_pattern(term@));
    }
    r
}

/// What the fuzzy-match predicate means: the term occurs
/// case-insensitively in the post's title, its body, or its author's
/// username.
pub open spec fn spec_search_matches(
    title: Seq<char>,
    body: Seq<char>,
    username: Seq<char>,
    term: Seq<char>,
) -> bool {
    ||| is_substring(lower(term), lower(title))
    ||| is_substring(lower(term), lower(body))
    ||| is_substring(lower(term), lower(username))
}

/// Decide the search predicate for one post, as the store evaluates it
/// over the three matched columns.
pub fn search_matches(title: &str, body: &str, username: &str, term: &str) -> (r: bool)
    ensures
        r == spec_search_matches(title@, body@, username@, term@),
{
    if contains_ci(title, term) {
        true
    } else if contains_ci(body, term) {
        true
    } else {
        contains_ci(username, term)
    }
}

/// Column list and joins of every post fetch.
pub open spec fn posts_select() -> Seq<char> {
    "SELECT p.id, p.title, p.body, p.created_by, p.slug, p.photo_url, p.created_at, p.updated_at, p.deleted_at, p.published, p.view_count, p.like_count, u.id, u.username FROM posts p INNER JOIN users u ON p.created_by = u.id"@
}

/// Column list and joins of a tag-filtered post fetch; DISTINCT guards
/// against a post repeating once per matching association row.
pub open spec fn tag_posts_select() -> Seq<char> {
    "SELECT DISTINCT p.id, p.title, p.body, p.created_by, p.slug, p.photo_url, p.created_at, p.updated_at, p.deleted_at, p.published, p.view_count, p.like_count, u.id, u.username FROM posts p INNER JOIN users u ON p.created_by = u.id INNER JOIN posts_to_tags ptt ON p.id = ptt.post_id INNER JOIN tags t ON ptt.tag_id = t.id"@
}

/// Visibility filter of every read query: published and not soft-deleted.
pub open spec fn visible_filter() -> Seq<char> {
    " WHERE p.published = true AND p.deleted_at IS NULL"@
}

/// Filter of a tag-filtered query: exact tag-name match plus visibility.
pub open spec fn tag_filter() -> Seq<char> {
    " WHERE t.name = $1 AND p.published = true AND p.deleted_at IS NULL"@
}

/// The fuzzy-match predicate over the three searched columns, with the
/// search parameter's placeholder spliced in.
pub open spec fn search_filter(ph: Seq<char>) -> Seq<char> {
    " AND (p.title ILIKE "@ + ph + " OR p.body ILIKE "@ + ph + " OR u.username ILIKE "@ + ph
        + ")"@
}

/// ORDER BY clause over the resolved sort field and direction.
pub open spec fn order_by_clause(field: SortField, dir: OrderDirection) -> Seq<char> {
    " ORDER BY p."@ + field_ident(field) + " "@ + direction_keyword(dir)
}

/// Pagination clause with the limit and offset placeholders.
pub open spec fn limit_offset_clause(lph: Seq<char>, oph: Seq<char>) -> Seq<char> {
    " LIMIT "@ + lph + " OFFSET "@ + oph
}

/// Count query of the unfiltered listing.
pub open spec fn spec_posts_count_query(has_search: bool) -> Seq<char> {
    if has_search {
        "SELECT COUNT(*) FROM posts p INNER JOIN users u ON p.created_by = u.id"@
            + visible_filter() + search_filter("$1"@)
    } else {
        "SELECT COUNT(*) FROM posts p"@ + visible_filter()
    }
}

/// Page query of the unfiltered listing.
pub open spec fn spec_posts_page_query(
    field: SortField,
    dir: OrderDirection,
    has_search: bool,
) -> Seq<char> {
    if has_search {
        posts_select() + visible_filter() + search_filter("$1"@) + order_by_clause(field, dir)
            + limit_offset_clause("$2"@, "$3"@)
    } else {
        posts_select() + visible_filter() + order_by_clause(field, dir)
            + limit_offset_clause("$1"@, "$2"@)
    }
}

/// Count query of the tag-filtered listing.
pub open spec fn spec_tag_count_query(has_search: bool) -> Seq<char> {
    if has_search {
        "SELECT COUNT(DISTINCT p.id) FROM posts p INNER JOIN users u ON p.created_by = u.id INNER JOIN posts_to_tags ptt ON p.id = ptt.post_id INNER JOIN tags t ON ptt.tag_id = t.id"@
            + tag_filter() + search_filter("$2"@)
    } else {
        "SELECT COUNT(DISTINCT p.id) FROM posts p INNER JOIN posts_to_tags ptt ON p.id = ptt.post_id INNER JOIN tags t ON ptt.tag_id = t.id"@
            + tag_filter()
    }
}

/// Page query of the tag-filtered listing.
pub open spec fn spec_tag_page_query(
    field: SortField,
    dir: OrderDirection,
    has_search: bool,
) -> Seq<char> {
    if has_search {
        tag_posts_select() + tag_filter() + search_filter("$2"@) + order_by_clause(field, dir)
            + limit_offset_clause("$3"@, "$4"@)
    } else {
        tag_posts_select() + tag_filter() + order_by_clause(field, dir)
            + limit_offset_clause("$2"@, "$3"@)
    }
}

/// Random-sample query over visible posts.
pub open spec fn spec_random_posts_query() -> Seq<char> {
    posts_select() + visible_filter() + " ORDER BY RANDOM() LIMIT $1"@
}

/// Single-resource lookup by author username and slug.
pub open spec fn spec_single_post_query() -> Seq<char> {
    posts_select()
        + " WHERE u.username = $1 AND p.slug = $2 AND p.published = true AND p.deleted_at IS NULL"@
}

/// Tag fetch of the single-resource lookup, ordered by name.
pub open spec fn spec_post_tags_query() -> Seq<char> {
    "SELECT t.id, t.name, t.created_at FROM tags t INNER JOIN posts_to_tags ptt ON t.id = ptt.tag_id WHERE ptt.post_id = $1 ORDER BY t.name"@
}

/// Batched tag fetch of a whole page, ordered by name.
pub open spec fn spec_batch_tags_query() -> Seq<char> {
    "SELECT t.id, t.name, t.created_at, ptt.post_id FROM tags t INNER JOIN posts_to_tags ptt ON t.id = ptt.tag_id WHERE ptt.post_id = ANY($1) ORDER BY t.name"@
}

/// Count query of the tag listing.
pub open spec fn spec_tags_count_query() -> Seq<char> {
    "SELECT COUNT(*) FROM tags"@
}

/// Page query of the tag listing, ordered by name.
pub open spec fn spec_tags_page_query() -> Seq<char> {
    "SELECT id, name, created_at FROM tags ORDER BY name LIMIT $1 OFFSET $2"@
}

/// Build the count query of the unfiltered listing.
pub fn posts_count_query(has_search: bool) -> (r: String)
    ensures
        r@ == spec_posts_count_query(has_search),
{
    let mut q = String::new();
    if has_search {
        q.append("SELECT COUNT(*) FROM posts p INNER JOIN users u ON p.created_by = u.id");
    } else {
        q.append("SELECT COUNT(*) FROM posts p");
    }
    q.append(" WHERE p.published = true AND p.deleted_at IS NULL");
    if has_search {
        append_search_filter(&mut q, "$1");
    }
    proof {
        assert(q@ =~= spec_posts_count_query(has_search));
    }
    q
}

/// Append the fuzzy-match predicate with the given placeholder.
fn append_search_filter(q: &mut String, ph: &str)
    ensures
        final(q)@ == old(q)@ + search_filter(ph@),
{
    q.append(" AND (p.title ILIKE ");
    q.append(ph);
    q.append(" OR p.body ILIKE ");
    q.append(ph);
    q.append(" OR u.username ILIKE ");
    q.append(ph);
    q.append(")");
    proof {
        assert(q@ =~= old(q)@ + search_filter(ph@));
    }
}

/// Append the ORDER BY clause of a resolved field and direction.
fn append_order_by(q: &mut String, field: SortField, dir: OrderDirection)
    ensures
        final(q)@ == old(q)@ + order_by_clause(field, dir),
{
    q.append(" ORDER BY p.");
    q.append(field_sql(field));
    q.append(" ");
    q.append(direction_sql(dir));
    proof {
        assert(q@ =~= old(q)@ + order_by_clause(field, dir));
    }
}

/// Append the pagination clause with the given placeholders.
fn append_limit_offset(q: &mut String, lph: &str, oph: &str)
    ensures
        final(q)@ == old(q)@ + limit_offset_clause(lph@, oph@),
{
    q.append(" LIMIT ");
    q.append(lph);
    q.append(" OFFSET ");
    q.append(oph);
    proof {
        assert(q@ =~= old(q)@ + limit_offset_clause(lph@, oph@));
    }
}

/// Build the page query of the unfiltered listing.
pub fn posts_page_query(field: SortField, dir: OrderDirection, has_search: bool) -> (r: String)
    ensures
        r@ == spec_posts_page_query(field, dir, has_search),
{
    let mut q = String::new();
    q.append(
        "SELECT p.id, p.title, p.body, p.created_by, p.slug, p.photo_url, p.created_at, p.updated_at, p.deleted_at, p.published, p.view_count, p.like_count, u.id, u.username FROM posts p INNER JOIN users u ON p.created_by = u.id",
    );
    q.append(" WHERE p.published = true AND p.deleted_at IS NULL");
    if has_search {
        append_search_filter(&mut q, "$1");
    }
    append_order_by(&mut q, field, dir);
    if has_search {
        append_limit_offset(&mut q, "$2", "$3");
    } else {
        append_limit_offset(&mut q, "$1", "$2");
    }
    proof {
        assert(q@ =~= spec_posts_page_query(field, dir, has_search));
    }
    q
}

/// Build the count query of the tag-filtered listing.
pub fn tag_count_query(has_search: bool) -> (r: String)
    ensures
        r@ == spec_tag_count_query(has_search),
{
    let mut q = String::new();
    if has_search {
        q.append(
            "SELECT COUNT(DISTINCT p.id) FROM posts p INNER JOIN users u ON p.created_by = u.id INNER JOIN posts_to_tags ptt ON p.id = ptt.post_id INNER JOIN tags t ON ptt.tag_id = t.id",
        );
    } else {
        q.append(
            "SELECT COUNT(DISTINCT p.id) FROM posts p INNER JOIN posts_to_tags ptt ON p.id = ptt.post_id INNER JOIN tags t ON ptt.tag_id = t.id",
        );
    }
    q.append(" WHERE t.name = $1 AND p.published = true AND p.deleted_at IS NULL");
    if has_search {
        append_search_filter(&mut q, "$2");
    }
    proof {
        assert(q@ =~= spec_tag_count_query(has_search));
    }
    q
}

/// Build the page query of the tag-filtered listing.
pub fn tag_page_query(field: SortField, dir: OrderDirection, has_search: bool) -> (r: String)
    ensures
        r@ == spec_tag_page_query(field, dir, has_search),
{
    let mut q = String::new();
    q.append(
        "SELECT DISTINCT p.id, p.title, p.body, p.created_by, p.slug, p.photo_url, p.created_at, p.updated_at, p.deleted_at, p.published, p.view_count, p.like_count, u.id, u.username FROM posts p INNER JOIN users u ON p.created_by = u.id INNER JOIN posts_to_tags ptt ON p.id = ptt.post_id INNER JOIN tags t ON ptt.tag_id = t.id",
    );
    q.append(" WHERE t.name = $1 AND p.published = true AND p.deleted_at IS NULL");
    if has_search {
        append_search_filter(&mut q, "$2");
    }
    append_order_by(&mut q, field, dir);
    if has_search {
        append_limit_offset(&mut q, "$3", "$4");
    } else {
        append_limit_offset(&mut q, "$2", "$3");
    }
    proof {
        assert(q@ =~= spec_tag_page_query(field, dir, has_search));
    }
    q
}

/// Build the random-sample query.
pub fn random_posts_query() -> (r: String)
    ensures
        r@ == spec_random_posts_query(),
{
    let mut q = String::new();
    q.append(
        "SELECT p.id, p.title, p.body, p.created_by, p.slug, p.photo_url, p.created_at, p.updated_at, p.deleted_at, p.published, p.view_count, p.like_count, u.id, u.username FROM posts p INNER JOIN users u ON p.created_by = u.id",
    );
    q.append(" WHERE p.published = true AND p.deleted_at IS NULL");
    q.append(" ORDER BY RANDOM() LIMIT $1");
    proof {
        assert(q@ =~= spec_random_posts_query());
    }
    q
}

/// Build the single-resource lookup query.
pub fn single_post_query() -> (r: String)
    ensures
        r@ == spec_single_post_query(),
{
    let mut q = String::new();
    q.append(
        "SELECT p.id, p.title, p.body, p.created_by, p.slug, p.photo_url, p.created_at, p.updated_at, p.deleted_at, p.published, p.view_count, p.like_count, u.id, u.username FROM posts p INNER JOIN users u ON p.created_by = u.id",
    );
    q.append(
        " WHERE u.username = $1 AND p.slug = $2 AND p.published = true AND p.deleted_at IS NULL",
    );
    proof {
        assert(q@ =~= spec_single_post_query());
    }
    q
}

/// The tag fetch of the single-resource lookup.
pub fn post_tags_query() -> (r: &'static str)
    ensures
        r@ == spec_post_tags_query(),
{
    "SELECT t.id, t.name, t.created_at FROM tags t INNER JOIN posts_to_tags ptt ON t.id = ptt.tag_id WHERE ptt.post_id = $1 ORDER BY t.name"
}

/// The batched tag fetch of a whole page.
pub fn batch_tags_query() -> (r: &'static str)
    ensures
        r@ == spec_batch_tags_query(),
{
    "SELECT t.id, t.name, t.created_at, ptt.post_id FROM tags t INNER JOIN posts_to_tags ptt ON t.id = ptt.tag_id WHERE ptt.post_id = ANY($1) ORDER BY t.name"
}

/// The count query of the tag listing.
pub fn tags_count_query() -> (r: &'static str)
    ensures
        r@ == spec_tags_count_query(),
{
    "SELECT COUNT(*) FROM tags"
}

/// The page query of the tag listing.
pub fn tags_page_query() -> (r: &'static str)
    ensures
        r@ == spec_tags_page_query(),
{
    "SELECT id, name, created_at FROM tags ORDER BY name LIMIT $1 OFFSET $2"
}

/// Parameters of the unfiltered count: the wrapped search term, if any.
pub open spec fn spec_posts_count_params(search: Option<Seq<char>>) -> Seq<ParamValue> {
    match search {
        Some(t) => seq![ParamValue::Text(spec_like_pattern(t))],
        None => Seq::empty(),
    }
}

/// Parameters of the tag-filtered count: the tag name, then the wrapped
/// search term, if any.
pub open spec fn spec_tag_count_params(tag: Seq<char>, search: Option<Seq<char>>) -> Seq<
    ParamValue,
> {
    seq![ParamValue::Text(tag)] + spec_posts_count_params(search)
}

/// The trailing pagination pair every page query binds last.
pub open spec fn spec_page_tail(limit: int, offset: int) -> Seq<ParamValue> {
    seq![ParamValue::Int(limit), ParamValue::Int(offset)]
}

/// Bind the parameters of the unfiltered count query.
pub fn posts_count_params(search: Option<&str>) -> (r: Vec<SqlParam>)
    ensures
        params_view(r@) == spec_posts_count_params(opt_str_view(search)),
{
    let mut r: Vec<SqlParam> = Vec::new();
    if let Some(term) = search {
        r.push(SqlParam::Text(like_pattern(term)));
    }
    proof {
        assert(params_view(r@) =~= spec_posts_count_params(opt_str_view(search)));
    }
    r
}

/// Bind the parameters of the unfiltered page query: the count
/// parameters followed by the limit/offset pair, in that order.
pub fn posts_page_params(search: Option<&str>, limit: i64, offset: i64) -> (r: Vec<SqlParam>)
    ensures
        params_view(r@) == spec_posts_count_params(opt_str_view(search)) + spec_page_tail(
            limit as int,
            offset as int,
        ),
{
    let mut r = posts_count_params(search);
    r.push(SqlParam::Int(limit));
    r.push(SqlParam::Int(offset));
    proof {
        assert(params_view(r@) =~= spec_posts_count_params(opt_str_view(search)) + spec_page_tail(
            limit as int,
            offset as int,
        ));
    }
    r
}

/// Bind the parameters of the tag-filtered count query.
pub fn tag_count_params(tag: &str, search: Option<&str>) -> (r: Vec<SqlParam>)
    ensures
        params_view(r@) == spec_tag_count_params(tag@, opt_str_view(search)),
{
    let mut r: Vec<SqlParam> = Vec::new();
    r.push(SqlParam::Text(tag.to_owned()));
    if let Some(term) = search {
        r.push(SqlParam::Text(like_pattern(term)));
    }
    proof {
        assert(params_view(r@) =~= spec_tag_count_params(tag@, opt_str_view(search)));
    }
    r
}

/// Bind the parameters of the tag-filtered page query: the count
/// parameters followed by the limit/offset pair, in that order.
pub fn tag_page_params(tag: &str, search: Option<&str>, limit: i64, offset: i64) -> (r: Vec<
    SqlParam,
>)
    ensures
        params_view(r@) == spec_tag_count_params(tag@, opt_str_view(search)) + spec_page_tail(
            limit as int,
            offset as int,
        ),
{
    let mut r = tag_count_params(tag, search);
    r.push(SqlParam::Int(limit));
    r.push(SqlParam::Int(offset));
    proof {
        assert(params_view(r@) =~= spec_tag_count_params(tag@, opt_str_view(search))
            + spec_page_tail(limit as int, offset as int));
    }
    r
}

/// Bind the single parameter of the random-sample query.
pub fn random_posts_params(limit: i64) -> (r: Vec<SqlParam>)
    ensures
        params_view(r@) == seq![ParamValue::Int(limit as int)],
{
    let mut r: Vec<SqlParam> = Vec::new();
    r.push(SqlParam::Int(limit));
    proof {
        assert(params_view(r@) =~= seq![ParamValue::Int(limit as int)]);
    }
    r
}

/// Bind the parameters of the single-resource lookup.
pub fn single_post_params(username: &str, slug: &str) -> (r: Vec<SqlParam>)
    ensures
        params_view(r@) == seq![ParamValue::Text(username@), ParamValue::Text(slug@)],
{
    let mut r: Vec<SqlParam> = Vec::new();
    r.push(SqlParam::Text(username.to_owned()));
    r.push(SqlParam::Text(slug.to_owned()));
    proof {
        assert(params_view(r@) =~= seq![ParamValue::Text(username@), ParamValue::Text(slug@)]);
    }
    r
}

/// Bind the single parameter of the single-resource tag fetch.
pub fn post_tags_params(post_id: u128) -> (r: Vec<SqlParam>)
    ensures
        params_view(r@) == seq![ParamValue::Id(post_id as int)],
{
    let mut r: Vec<SqlParam> = Vec::new();
    r.push(SqlParam::Id(post_id));
    proof {
        assert(params_view(r@) =~= seq![ParamValue::Id(post_id as int)]);
    }
    r
}

/// Bind the page's identifier set as the one parameter of the batched
/// tag fetch.
pub fn batch_tags_params(post_ids: Vec<u128>) -> (r: Vec<SqlParam>)
    ensures
        params_view(r@) == seq![
            ParamValue::IdList(post_ids@.map_values(|x: u128| x as int)),
        ],
{
    let mut r: Vec<SqlParam> = Vec::new();
    r.push(SqlParam::IdList(post_ids));
    proof {
        assert(params_view(r@)[0] == r@[0]@);
        assert(params_view(r@) =~= seq![r@[0]@]);
    }
    r
}

/// Bind the parameters of the tag listing's page query.
pub fn tags_page_params(limit: i64, offset: i64) -> (r: Vec<SqlParam>)
    ensures
        params_view(r@) == spec_page_tail(limit as int, offset as int),
{
    let mut r: Vec<SqlParam> = Vec::new();
    r.push(SqlParam::Int(limit));
    r.push(SqlParam::Int(offset));
    proof {
        assert(params_view(r@) =~= spec_page_tail(limit as int, offset as int));
    }
    r
}

/// A composed listing operation: the count query and the page query,
/// each with its bound parameters.
pub struct ListingPlan {
    pub count_query: String,
    pub count_params: Vec<SqlParam>,
    pub page_query: String,
    pub page_params: Vec<SqlParam>,
}

/// Compose the unfiltered listing: resolve the sort request against the
/// allow-list, then build the count/page query pair with identical
/// filters and consistently ordered parameters.
pub fn plan_posts_listing(
    search: Option<&str>,
    order_by: Option<&str>,
    direction: Option<OrderDirection>,
    limit: i64,
    offset: i64,
) -> (p: ListingPlan)
    ensures
        p.count_query@ == spec_posts_count_query(search is Some),
        params_view(p.count_params@) == spec_posts_count_params(opt_str_view(search)),
        p.page_query@ == spec_posts_page_query(
            spec_resolve_field_opt(opt_str_view(order_by)),
            spec_resolve_direction_opt(direction),
            search is Some,
        ),
        params_view(p.page_params@) == params_view(p.count_params@) + spec_page_tail(
            limit as int,
            offset as int,
        ),
{
    let field = resolve_sort_field(order_by);
    let dir = resolve_direction(direction);
    let has_search = search.is_some();
    ListingPlan {
        count_query: posts_count_query(has_search),
        count_params: posts_count_params(search),
        page_query: posts_page_query(field, dir, has_search),
        page_params: posts_page_params(search, limit, offset),
    }
}

/// Compose the tag-filtered listing, as [`plan_posts_listing`] but with
/// the tag name bound first in both queries.
pub fn plan_tag_listing(
    tag: &str,
    search: Option<&str>,
    order_by: Option<&str>,
    direction: Option<OrderDirection>,
    limit: i64,
    offset: i64,
) -> (p: ListingPlan)
    ensures
        p.count_query@ == spec_tag_count_query(search is Some),
        params_view(p.count_params@) == spec_tag_count_params(tag@, opt_str_view(search)),
        p.page_query@ == spec_tag_page_query(
            spec_resolve_field_opt(opt_str_view(order_by)),
            spec_resolve_direction_opt(direction),
            search is Some,
        ),
        params_view(p.page_params@) == params_view(p.count_params@) + spec_page_tail(
            limit as int,
            offset as int,
        ),
{
    let field = resolve_sort_field(order_by);
    let dir = resolve_direction(direction);
    let has_search = search.is_some();
    ListingPlan {
        count_query: tag_count_query(has_search),
        count_params: tag_count_params(tag, search),
        page_query: tag_page_query(field, dir, has_search),
        page_params: tag_page_params(tag, search, limit, offset),
    }
}

} // verus!

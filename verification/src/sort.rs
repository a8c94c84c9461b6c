//! Sort field whitelist and direction resolution.
//!
//! User-supplied strings are never interpolated into an ORDER BY clause:
//! a requested field is looked up in a fixed allow-list and resolved to a
//! member of [`SortField`], whose identifier text is a literal of this
//! module.  Anything outside the allow-list falls back to the default
//! field `id`; an absent direction falls back to ascending.

use vstd::prelude::*;
use crate::text::str_eq;

verus! {

/// Direction of an ORDER BY clause.
#[derive(Clone, Copy, Debug, PartialEq, Eq, Structural)]
pub enum OrderDirection {
    Asc,
    Desc,
}

/// The sortable columns of the post listing: the closed allow-list.
#[derive(Clone, Copy, Debug, PartialEq, Eq, Structural)]
pub enum SortField {
    Id,
    Title,
    CreatedAt,
    UpdatedAt,
    ViewCount,
    LikeCount,
}

/// The SQL identifier a sort field stands for.
pub open spec fn field_ident(f: SortField) -> Seq<char> {
    match f {
        SortField::Id => "id"@,
        SortField::Title => "title"@,
        SortField::CreatedAt => "created_at"@,
        SortField::UpdatedAt => "updated_at"@,
        SortField::ViewCount => "view_count"@,
        SortField::LikeCount => "like_count"@,
    }
}

/// The SQL keyword a direction stands for.
pub open spec fn direction_keyword(d: OrderDirection) -> Seq<char> {
    match d {
        OrderDirection::Asc => "ASC"@,
        OrderDirection::Desc => "DESC"@,
    }
}

/// Whether `s` names a column of the allow-list.
pub open spec fn in_whitelist(s: Seq<char>) -> bool {
    ||| s == "id"@
    ||| s == "title"@
    ||| s == "created_at"@
    ||| s == "updated_at"@
    ||| s == "view_count"@
    ||| s == "like_count"@
}

/// The sort field a requested string resolves to: its allow-list entry,
/// or the default field `id` for anything else.
pub open spec fn spec_resolve_field(s: Seq<char>) -> SortField {
    if s == "title"@ {
        SortField::Title
    } else if s == "created_at"@ {
        SortField::CreatedAt
    } else if s == "updated_at"@ {
        SortField::UpdatedAt
    } else if s == "view_count"@ {
        SortField::ViewCount
    } else if s == "like_count"@ {
        SortField::LikeCount
    } else {
        SortField::Id
    }
}

/// Resolution of an optional requested field: absent input yields the
/// default field `id`.
pub open spec fn spec_resolve_field_opt(s: Option<Seq<char>>) -> SortField {
    match s {
        Some(t) => spec_resolve_field(t),
        None => SortField::Id,
    }
}

/// Resolution of an optional requested direction: absent input yields
/// ascending.
pub open spec fn spec_resolve_direction_opt(d: Option<OrderDirection>) -> OrderDirection {
    match d {
        Some(OrderDirection::Desc) => OrderDirection::Desc,
        _ => OrderDirection::Asc,
    }
}

/// The view of an optional borrowed string.
pub open spec fn opt_str_view(s: Option<&str>) -> Option<Seq<char>> {
    match s {
        Some(t) => Some(t@),
        None => None,
    }
}

/// Resolve an optional requested sort field against the allow-list;
/// absent or unlisted input yields the default field `id`.
pub fn resolve_sort_field(order_by: Option<&str>) -> (f: SortField)
    ensures
        f == spec_resolve_field_opt(opt_str_view(order_by)),
{
    match order_by {
        None => SortField::Id,
        Some(s) => {
            if str_eq(s, "title") {
                SortField::Title
            } else if str_eq(s, "created_at") {
                SortField::CreatedAt
            } else if str_eq(s, "updated_at") {
                SortField::UpdatedAt
            } else if str_eq(s, "view_count") {
                SortField::ViewCount
            } else if str_eq(s, "like_count") {
                SortField::LikeCount
            } else {
                SortField::Id
            }
        },
    }
}

/// Resolve an optional requested direction; absent input yields ascending.
pub fn resolve_direction(direction: Option<OrderDirection>) -> (d: OrderDirection)
    ensures
        d == spec_resolve_direction_opt(direction),
{
    match direction {
        Some(OrderDirection::Desc) => OrderDirection::Desc,
        _ => OrderDirection::Asc,
    }
}

/// The identifier of a sort field, as text.
pub fn field_sql(f: SortField) -> (r: &'static str)
    ensures
        r@ == field_ident(f),
{
    match f {
        SortField::Id => "id",
        SortField::Title => "title",
        SortField::CreatedAt => "created_at",
        SortField::UpdatedAt => "updated_at",
        SortField::ViewCount => "view_count",
        SortField::LikeCount => "like_count",
    }
}

/// The keyword of a direction, as text.
pub fn direction_sql(d: OrderDirection) -> (r: &'static str)
    ensures
        r@ == direction_keyword(d),
{
    match d {
        OrderDirection::Asc => "ASC",
        OrderDirection::Desc => "DESC",
    }
}

/// Whitelist resolution never passes an unlisted string through: any
/// requested field outside the allow-list resolves to the default field
/// `id`, and the identifier a resolution yields is always a member of
/// the allow-list.
pub proof fn lemma_resolution_is_safe(s: Seq<char>)
    ensures
        !in_whitelist(s) ==> spec_resolve_field(s) == SortField::Id,
        in_whitelist(field_ident(spec_resolve_field(s))),
        in_whitelist(s) ==> field_ident(spec_resolve_field(s)) == s,
{
}

} // verus!

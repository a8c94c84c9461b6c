//! The page model of a listing operation.
//!
//! A count query and its page query share the same filter predicates,
//! so a conforming store answers from one matching sequence: the total
//! is its length, the rows are its page window.  The law below fixes
//! the boundary behaviour: a window that starts at or beyond the total
//! is empty, never an error.

use vstd::prelude::*;
use crate::materialize::{dedup_rows, make_page_posts, preview_post_of, spec_dedup};
use crate::model::{Post, PostRow, TagAssoc};
use crate::response::{ApiResponse, spec_total_pages};

verus! {

/// The page window of a sequence: the run of at most `limit` elements
/// starting at `offset`, clipped to the sequence.
pub open spec fn page_window<A>(s: Seq<A>, offset: int, limit: int) -> Seq<A> {
    let lo = if offset <= s.len() {
        offset
    } else {
        s.len() as int
    };
    let hi = if offset + limit <= s.len() {
        offset + limit
    } else {
        s.len() as int
    };
    if lo <= hi {
        s.subrange(lo, hi)
    } else {
        Seq::empty()
    }
}

/// A count/page answer pair drawn from one snapshot: the rows that
/// match the (shared) filters are `matching`; the count query answers
/// their number and the page query their page window.
pub open spec fn consistent_listing_answer(
    matching: Seq<PostRow>,
    total: int,
    rows: Seq<PostRow>,
    offset: int,
    limit: int,
) -> bool {
    &&& total == matching.len()
    &&& rows == page_window(matching, offset, limit)
}

/// A page requested at or beyond the total yields the empty item list —
/// the request still succeeds (the envelope builder marks every answer
/// successful), it is not an error.
pub proof fn lemma_offset_beyond_total_is_empty(
    matching: Seq<PostRow>,
    total: int,
    rows: Seq<PostRow>,
    offset: int,
    limit: int,
)
    requires
        consistent_listing_answer(matching, total, rows, offset, limit),
        offset >= total,
        0 <= limit,
    ensures
        rows.len() == 0,
{
    assert(rows =~= page_window(matching, offset, limit));
}

/// Finish a listing operation: deduplicate the fetched rows when asked
/// (the tag-filtered listing does, defensively), materialize them as
/// list-view posts with their batched tags, and wrap the page in the
/// envelope with the count query's total.
pub fn listing_response(
    rows: Vec<PostRow>,
    assocs: &Vec<TagAssoc>,
    dedup: bool,
    total: i64,
    limit: i64,
    offset: i64,
) -> (r: ApiResponse<Vec<Post>>)
    requires
        0 <= total,
        0 <= limit,
    ensures
        r.success,
        r.meta.total_items == total,
        r.meta.offset == offset,
        r.meta.limit == limit,
        r.meta.total_pages == spec_total_pages(total as int, limit as int),
        ({
            let kept = if dedup {
                spec_dedup(rows@)
            } else {
                rows@
            };
            match r.data {
                Some(posts) => posts@.len() == kept.len() && (forall|i: int|
                    0 <= i < kept.len() ==> preview_post_of(#[trigger] posts@[i], kept[i], assocs@)),
                None => false,
            }
        }),
{
    let kept = if dedup {
        dedup_rows(&rows)
    } else {
        rows
    };
    let posts = make_page_posts(&kept, assocs);
    ApiResponse::with_meta(posts, total, limit, offset)
}

/// The page window never invents rows: each of its elements stands in
/// the matching sequence.
pub proof fn lemma_page_window_from_matching<A>(s: Seq<A>, offset: int, limit: int)
    requires
        0 <= offset,
        0 <= limit,
    ensures
        page_window(s, offset, limit).len() <= limit,
        forall|i: int|
            0 <= i < page_window(s, offset, limit).len() ==> #[trigger] page_window(
                s,
                offset,
                limit,
            )[i] == s[offset + i],
{
}

} // verus!

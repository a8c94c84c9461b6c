//! Result materialization: raw rows become post read-models.
//!
//! List views truncate bodies to a preview, deduplicate rows by post
//! identifier (defensively — the fetch queries already select distinct
//! rows), and distribute one batched tag fetch over the page's posts,
//! so that no per-post follow-up query is ever needed.

use vstd::prelude::*;
use vstd::string::{StrSliceExecFns, StringExecFns};
use crate::model::{Post, PostRow, Tag, TagAssoc, User};

verus! {

/// Character length a list-view body is cut to.
pub const PREVIEW_LEN: usize = 200;

/// A body as list views show it: unchanged when it fits the preview
/// length, else the first `PREVIEW_LEN` characters with an ellipsis.
pub open spec fn spec_preview(s: Seq<char>) -> Seq<char> {
    if s.len() <= PREVIEW_LEN {
        s
    } else {
        s.subrange(0, PREVIEW_LEN as int) + "..."@
    }
}

/// Truncate a body to its list-view preview.
pub fn truncate_preview(body: &str) -> (r: String)
    ensures
        r@ == spec_preview(body@),
{
    let n = body.unicode_len();
    if n <= PREVIEW_LEN {
        body.to_owned()
    } else {
        let head = body.substring_char(0, PREVIEW_LEN);
        let mut r = head.to_owned();
        r.append("...");
        r
    }
}

/// The tags of the post `id`, in row order, from one batched fetch.
pub open spec fn tags_for(assocs: Seq<TagAssoc>, id: u128) -> Seq<Tag>
    decreases assocs.len(),
{
    if assocs.len() == 0 {
        Seq::empty()
    } else {
        let rest = tags_for(assocs.drop_last(), id);
        if assocs.last().post_id == id {
            rest.push(assocs.last().tag)
        } else {
            rest
        }
    }
}

/// A post none of the batch rows mention gets the empty tag set.
pub proof fn lemma_tags_for_absent(assocs: Seq<TagAssoc>, id: u128)
    requires
        forall|j: int| 0 <= j < assocs.len() ==> assocs[j].post_id != id,
    ensures
        tags_for(assocs, id) == Seq::<Tag>::empty(),
    decreases assocs.len(),
{
    if assocs.len() > 0 {
        lemma_tags_for_absent(assocs.drop_last(), id);
    }
}

/// Every grouped tag comes from a batch row of the same post.
pub proof fn lemma_tags_for_membership(assocs: Seq<TagAssoc>, id: u128)
    ensures
        forall|i: int|
            0 <= i < tags_for(assocs, id).len() ==> exists|k: int|
                0 <= k < assocs.len() && assocs[k].post_id == id && #[trigger] tags_for(
                    assocs,
                    id,
                )[i] == assocs[k].tag,
    decreases assocs.len(),
{
    if assocs.len() > 0 {
        let rest = assocs.drop_last();
        lemma_tags_for_membership(rest, id);
        assert forall|i: int| 0 <= i < tags_for(assocs, id).len() implies exists|k: int|
            0 <= k < assocs.len() && assocs[k].post_id == id && #[trigger] tags_for(assocs, id)[i]
                == assocs[k].tag by {
            let tr = tags_for(rest, id);
            if i < tr.len() {
                let k = choose|k: int|
                    0 <= k < rest.len() && rest[k].post_id == id && #[trigger] tr[i] == rest[k].tag;
                assert(0 <= k < assocs.len() && assocs[k].post_id == id && tags_for(assocs, id)[i]
                    == assocs[k].tag);
            } else {
                let k = assocs.len() - 1;
                assert(0 <= k < assocs.len() && assocs[k].post_id == id && tags_for(assocs, id)[i]
                    == assocs[k].tag);
            }
        }
    }
}

/// Grouping keeps the batch rows' order within each post: when the
/// batch fetch hands its rows in some order (the composed query orders
/// them by tag name), each post's tag set comes out in that same order.
pub proof fn lemma_tags_for_keeps_order(
    assocs: Seq<TagAssoc>,
    id: u128,
    leq: spec_fn(Tag, Tag) -> bool,
)
    requires
        forall|i: int, j: int|
            0 <= i < j < assocs.len() ==> leq(#[trigger] assocs[i].tag, #[trigger] assocs[j].tag),
    ensures
        forall|i: int, j: int|
            0 <= i < j < tags_for(assocs, id).len() ==> leq(
                #[trigger] tags_for(assocs, id)[i],
                #[trigger] tags_for(assocs, id)[j],
            ),
    decreases assocs.len(),
{
    if assocs.len() > 0 {
        let rest = assocs.drop_last();
        let t = tags_for(assocs, id);
        let tr = tags_for(rest, id);
        lemma_tags_for_keeps_order(rest, id, leq);
        lemma_tags_for_membership(rest, id);
        assert forall|i: int, j: int| 0 <= i < j < t.len() implies leq(
            #[trigger] t[i],
            #[trigger] t[j],
        ) by {
            if j < tr.len() {
                assert(leq(tr[i], tr[j]));
            } else {
                assert(t[j] == assocs.last().tag);
                assert(t[i] == tr[i]);
                let k = choose|k: int|
                    0 <= k < rest.len() && rest[k].post_id == id && tr[i] == rest[k].tag;
                assert(leq(assocs[k].tag, assocs[assocs.len() - 1].tag));
            }
        }
    }
}

/// Collect the tags of one post from the batch rows, in row order.
pub fn tags_for_post(assocs: &Vec<TagAssoc>, id: u128) -> (r: Vec<Tag>)
    ensures
        r@ == tags_for(assocs@, id),
{
    let mut r: Vec<Tag> = Vec::new();
    let n = assocs.len();
    let mut i: usize = 0;
    while i < n
        invariant
            i <= n,
            n == assocs@.len(),
            r@ == tags_for(assocs@.take(i as int), id),
        decreases n - i,
    {
        proof {
            assert(assocs@.take(i + 1).drop_last() =~= assocs@.take(i as int));
            assert(assocs@.take(i + 1).last() == assocs@[i as int]);
        }
        if assocs[i].post_id == id {
            r.push(assocs[i].tag.clone());
        }
        i += 1;
    }
    proof {
        assert(assocs@.take(n as int) =~= assocs@);
    }
    r
}

/// How a list-view post relates to the row it came from: every column
/// carried over, the body truncated to its preview, the author embedded,
/// and the tags grouped out of the batch rows.
pub open spec fn preview_post_of(p: Post, row: PostRow, assocs: Seq<TagAssoc>) -> bool {
    &&& p.id == row.id
    &&& p.title == row.title
    &&& p.body@ == spec_preview(row.body@)
    &&& p.created_by == row.created_by
    &&& p.slug == row.slug
    &&& p.photo_url == row.photo_url
    &&& p.created_at == row.created_at
    &&& p.updated_at == row.updated_at
    &&& p.deleted_at == row.deleted_at
    &&& p.published == row.published
    &&& p.view_count == row.view_count
    &&& p.like_count == row.like_count
    &&& p.user.id == row.user_id
    &&& p.user.username == row.username
    &&& p.tags@ == tags_for(assocs, row.id)
}

/// Materialize a page of list-view posts: one post per row, bodies
/// truncated to previews, and each post's tag set taken from the one
/// batched tag fetch.  Rows without batch entries yield empty tag sets.
pub fn make_page_posts(rows: &Vec<PostRow>, assocs: &Vec<TagAssoc>) -> (r: Vec<Post>)
    ensures
        r@.len() == rows@.len(),
        forall|i: int| 0 <= i < rows@.len() ==> preview_post_of(#[trigger] r@[i], rows@[i], assocs@),
{
    let mut out: Vec<Post> = Vec::new();
    let n = rows.len();
    let mut i: usize = 0;
    while i < n
        invariant
            i <= n,
            n == rows@.len(),
            out@.len() == i,
            forall|j: int| 0 <= j < i ==> preview_post_of(#[trigger] out@[j], rows@[j], assocs@),
        decreases n - i,
    {
        let row = rows[i].clone();
        let tags = tags_for_post(assocs, row.id);
        let body = truncate_preview(row.body.as_str());
        let post = Post {
            id: row.id,
            title: row.title,
            body,
            created_by: row.created_by,
            slug: row.slug,
            photo_url: row.photo_url,
            created_at: row.created_at,
            updated_at: row.updated_at,
            deleted_at: row.deleted_at,
            published: row.published,
            view_count: row.view_count,
            like_count: row.like_count,
            user: User { id: row.user_id, username: row.username },
            tags,
        };
        out.push(post);
        i += 1;
    }
    out
}

/// Assemble the single-resource read-model: the full body (no preview
/// truncation) and the tags of the follow-up fetch, in row order.
pub fn make_single_post(row: PostRow, tags: Vec<Tag>) -> (p: Post)
    ensures
        p.id == row.id,
        p.title == row.title,
        p.body == row.body,
        p.created_by == row.created_by,
        p.slug == row.slug,
        p.photo_url == row.photo_url,
        p.created_at == row.created_at,
        p.updated_at == row.updated_at,
        p.deleted_at == row.deleted_at,
        p.published == row.published,
        p.view_count == row.view_count,
        p.like_count == row.like_count,
        p.user.id == row.user_id,
        p.user.username == row.username,
        p.tags == tags,
{
    Post {
        id: row.id,
        title: row.title,
        body: row.body,
        created_by: row.created_by,
        slug: row.slug,
        photo_url: row.photo_url,
        created_at: row.created_at,
        updated_at: row.updated_at,
        deleted_at: row.deleted_at,
        published: row.published,
        view_count: row.view_count,
        like_count: row.like_count,
        user: User { id: row.user_id, username: row.username },
        tags,
    }
}

/// The identifiers of a page of posts, in page order: the key set of
/// the batched tag fetch.
pub fn post_ids(posts: &Vec<Post>) -> (r: Vec<u128>)
    ensures
        r@.len() == posts@.len(),
        forall|i: int| 0 <= i < posts@.len() ==> r@[i] == posts@[i].id,
{
    let mut r: Vec<u128> = Vec::new();
    let n = posts.len();
    let mut i: usize = 0;
    while i < n
        invariant
            i <= n,
            n == posts@.len(),
            r@.len() == i,
            forall|j: int| 0 <= j < i ==> r@[j] == posts@[j].id,
        decreases n - i,
    {
        r.push(posts[i].id);
        i += 1;
    }
    r
}

/// Whether some row of `s` carries the post identifier `id`.
pub open spec fn contains_id(s: Seq<PostRow>, id: u128) -> bool {
    exists|j: int| 0 <= j < s.len() && s[j].id == id
}

/// Row deduplication by post identifier, keeping the first row of each.
pub open spec fn spec_dedup(s: Seq<PostRow>) -> Seq<PostRow>
    decreases s.len(),
{
    if s.len() == 0 {
        s
    } else {
        let prefix = spec_dedup(s.drop_last());
        if contains_id(s.drop_last(), s.last().id) {
            prefix
        } else {
            prefix.push(s.last())
        }
    }
}

/// Deduplication keeps exactly the identifiers of its input.
pub proof fn lemma_dedup_same_ids(s: Seq<PostRow>, id: u128)
    ensures
        contains_id(spec_dedup(s), id) == contains_id(s, id),
    decreases s.len(),
{
    if s.len() > 0 {
        let rest = s.drop_last();
        let prefix = spec_dedup(rest);
        let d = spec_dedup(s);
        lemma_dedup_same_ids(rest, id);
        if contains_id(s, id) {
            let j = choose|j: int| 0 <= j < s.len() && s[j].id == id;
            if j < s.len() - 1 {
                assert(rest[j].id == id);
                assert(contains_id(rest, id));
            } else {
                assert(s.last().id == id);
            }
        }
        if contains_id(rest, id) {
            let j = choose|j: int| 0 <= j < rest.len() && rest[j].id == id;
            assert(s[j].id == id);
            assert(contains_id(s, id));
        }
        if s.last().id == id {
            assert(s[s.len() - 1].id == id);
            assert(contains_id(s, id));
        }
        if !contains_id(rest, s.last().id) {
            if contains_id(prefix, id) {
                let j = choose|j: int| 0 <= j < prefix.len() && prefix[j].id == id;
                assert(d[j].id == id);
                assert(contains_id(d, id));
            }
            if s.last().id == id {
                assert(d[d.len() - 1].id == id);
                assert(contains_id(d, id));
            }
            if contains_id(d, id) {
                let j = choose|j: int| 0 <= j < d.len() && d[j].id == id;
                if j < d.len() - 1 {
                    assert(prefix[j].id == id);
                    assert(contains_id(prefix, id));
                } else {
                    assert(s.last().id == id);
                }
            }
        }
    }
}

/// A deduplicated page mentions each post exactly once: any two distinct
/// positions carry distinct post identifiers.
pub proof fn lemma_dedup_distinct(s: Seq<PostRow>)
    ensures
        forall|i: int, j: int|
            0 <= i < j < spec_dedup(s).len() ==> #[trigger] spec_dedup(s)[i].id != #[trigger] spec_dedup(
                s,
            )[j].id,
    decreases s.len(),
{
    if s.len() > 0 {
        lemma_dedup_distinct(s.drop_last());
        let prev = spec_dedup(s.drop_last());
        if !contains_id(s.drop_last(), s.last().id) {
            lemma_dedup_same_ids(s.drop_last(), s.last().id);
            assert(!contains_id(prev, s.last().id));
            let d = spec_dedup(s);
            assert forall|i: int, j: int| 0 <= i < j < d.len() implies #[trigger] d[i].id
                != #[trigger] d[j].id by {
                if j < d.len() - 1 {
                    assert(prev[i].id != prev[j].id);
                } else {
                    assert(d[i] == prev[i]);
                    assert(!(0 <= i < prev.len() && prev[i].id == s.last().id));
                }
            }
        }
    }
}

/// Check whether an already-kept row carries `id`.
fn vec_contains_id(v: &Vec<PostRow>, id: u128) -> (r: bool)
    ensures
        r == contains_id(v@, id),
{
    let n = v.len();
    let mut i: usize = 0;
    while i < n
        invariant
            i <= n,
            n == v@.len(),
            forall|j: int| 0 <= j < i ==> v@[j].id != id,
        decreases n - i,
    {
        if v[i].id == id {
            return true;
        }
        i += 1;
    }
    false
}

/// Drop repeated rows of one page fetch, keeping the first row of each
/// post identifier in page order.
pub fn dedup_rows(rows: &Vec<PostRow>) -> (r: Vec<PostRow>)
    ensures
        r@ == spec_dedup(rows@),
{
    let mut out: Vec<PostRow> = Vec::new();
    let n = rows.len();
    let mut i: usize = 0;
    while i < n
        invariant
            i <= n,
            n == rows@.len(),
            out@ == spec_dedup(rows@.take(i as int)),
        decreases n - i,
    {
        proof {
            assert(rows@.take(i + 1).drop_last() =~= rows@.take(i as int));
            assert(rows@.take(i + 1).last() == rows@[i as int]);
            lemma_dedup_same_ids(rows@.take(i as int), rows@[i as int].id);
        }
        if !vec_contains_id(&out, rows[i].id) {
            out.push(rows[i].clone());
        }
        i += 1;
    }
    proof {
        assert(rows@.take(n as int) =~= rows@);
    }
    out
}

} // verus!

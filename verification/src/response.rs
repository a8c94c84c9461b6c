//! Uniform response envelope: success flag, optional payload, and
//! pagination metadata with the derived total page count.

use vstd::prelude::*;
use vstd::arithmetic::div_mod::{
    lemma_fundamental_div_mod, lemma_fundamental_div_mod_converse, lemma_mod_bound,
};
use vstd::arithmetic::mul::lemma_mul_is_commutative;

verus! {

/// Pagination metadata carried by every response.
#[derive(Clone, Copy, Debug, PartialEq, Eq, Structural)]
pub struct Meta {
    pub total_items: i64,
    pub offset: i64,
    pub limit: i64,
    pub total_pages: i64,
}

/// Number of pages needed to hold `total` items at `limit` items per page:
/// the ceiling of `total / limit` when `limit > 0`, and 0 when `limit == 0`.
pub open spec fn spec_total_pages(total: int, limit: int) -> int {
    if limit > 0 {
        (total + limit - 1) / limit
    } else {
        0
    }
}

impl Default for Meta {
    /// The metadata block used when no pagination is meaningful
    /// (single-resource responses).
    fn default() -> (r: Meta)
        ensures
            r.total_items == 0,
            r.offset == 0,
            r.limit == 10,
            r.total_pages == 0,
    {
        Meta { total_items: 0, offset: 0, limit: 10, total_pages: 0 }
    }
}

/// Total page count over machine integers, equal to `spec_total_pages`.
pub fn total_pages(total: i64, limit: i64) -> (r: i64)
    requires
        0 <= total,
        0 <= limit,
    ensures
        r == spec_total_pages(total as int, limit as int),
{
    if limit > 0 {
        let t = total as u64;
        let l = limit as u64;
        let q = t / l;
        let rem = t % l;
        proof {
            let ti = total as int;
            let li = limit as int;
            lemma_fundamental_div_mod(ti, li);
            lemma_mul_is_commutative(li, ti / li);
            assert(q == ti / li);
            assert(rem == ti % li);
            assert(li * (ti / li + 1) == li * (ti / li) + li) by (nonlinear_arith);
            lemma_mul_is_commutative(li, ti / li + 1);
            if rem == 0 {
                lemma_fundamental_div_mod_converse(ti + li - 1, li, ti / li, li - 1);
            } else {
                assert(li * (ti / li) >= ti / li) by (nonlinear_arith)
                    requires
                        li >= 1 && ti / li >= 0,
                ;
                lemma_fundamental_div_mod_converse(ti + li - 1, li, ti / li + 1, rem - 1);
            }
        }
        if rem != 0 {
            (q + 1) as i64
        } else {
            q as i64
        }
    } else {
        0
    }
}

/// The page count is the least count whose pages hold all items: its pages
/// suffice, and one page fewer would not, so it is exactly `ceil(total / limit)`
/// for positive `limit` — and 0 when `limit == 0`.
pub proof fn lemma_total_pages_is_ceiling(total: int, limit: int)
    requires
        0 <= total,
    ensures
        limit > 0 ==> spec_total_pages(total, limit) * limit >= total,
        limit > 0 && total > 0 ==> (spec_total_pages(total, limit) - 1) * limit < total,
        limit > 0 && total == 0 ==> spec_total_pages(total, limit) == 0,
        limit == 0 ==> spec_total_pages(total, limit) == 0,
{
    if limit > 0 {
        let n = (total + limit - 1) / limit;
        let r = (total + limit - 1) % limit;
        lemma_fundamental_div_mod(total + limit - 1, limit);
        lemma_mod_bound(total + limit - 1, limit);
        lemma_mul_is_commutative(limit, n);
        assert(n * limit == total + limit - 1 - r);
        assert((n - 1) * limit == n * limit - limit) by (nonlinear_arith);
    }
}

/// Uniform response envelope: every endpoint answers with the same shape.
pub struct ApiResponse<T> {
    pub success: bool,
    pub data: Option<T>,
    pub meta: Meta,
}

impl<T> ApiResponse<T> {
    /// Successful single-resource response with the default metadata block.
    pub fn success(data: T) -> (r: ApiResponse<T>)
        ensures
            r.success,
            r.data == Some(data),
            r.meta == (Meta { total_items: 0, offset: 0, limit: 10, total_pages: 0 }),
    {
        ApiResponse { success: true, data: Some(data), meta: Meta::default() }
    }

    /// Successful list response: echoes `limit` and `offset`, records the
    /// total matching item count, and derives the total page count.
    pub fn with_meta(data: T, total: i64, limit: i64, offset: i64) -> (r: ApiResponse<T>)
        requires
            0 <= total,
            0 <= limit,
        ensures
            r.success,
            r.data == Some(data),
            r.meta.total_items == total,
            r.meta.offset == offset,
            r.meta.limit == limit,
            r.meta.total_pages == spec_total_pages(total as int, limit as int),
    {
        let pages = total_pages(total, limit);
        ApiResponse {
            success: true,
            data: Some(data),
            meta: Meta { total_items: total, offset, limit, total_pages: pages },
        }
    }
}

} // verus!

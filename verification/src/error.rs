//! Error taxonomy and the single-resource outcome.
//!
//! "Not found" is an outcome of its own, distinct from a store failure
//! and from an empty success envelope; a store failure is never swapped
//! for an empty result.

use vstd::prelude::*;
use vstd::string::StringExecFns;
use crate::model::Post;
use crate::response::{ApiResponse, Meta};

verus! {

/// What a request can fail with: a missing resource, or an unavailable
/// backend (the store error's text carried opaquely).
pub enum AppError {
    NotFound(String),
    Backend(String),
}

/// The message of a missed lookup.
pub open spec fn spec_not_found_message(slug: Seq<char>, username: Seq<char>) -> Seq<char> {
    "Post not found: "@ + slug + " by "@ + username
}

/// Build the message of a missed lookup.
pub fn not_found_message(slug: &str, username: &str) -> (r: String)
    ensures
        r@ == spec_not_found_message(slug@, username@),
{
    let mut r = String::new();
    r.append("Post not found: ");
    r.append(slug);
    r.append(" by ");
    r.append(username);
    proof {
        assert(r@ =~= spec_not_found_message(slug@, username@));
    }
    r
}

/// Wrap the single-resource lookup's outcome: a found post becomes a
/// success envelope with the default metadata block; an absent post
/// becomes the not-found error — never an empty success envelope.
pub fn single_post_response(found: Option<Post>, username: &str, slug: &str) -> (r: Result<
    ApiResponse<Post>,
    AppError,
>)
    ensures
        (match found {
            Some(p) => r matches Ok(resp) && resp.success && resp.data == Some(p) && resp.meta
                == (Meta { total_items: 0, offset: 0, limit: 10, total_pages: 0 }),
            None => r matches Err(AppError::NotFound(m)) && m@ == spec_not_found_message(
                slug@,
                username@,
            ),
        }),
{
    match found {
        Some(p) => Ok(ApiResponse::success(p)),
        None => Err(AppError::NotFound(not_found_message(slug, username))),
    }
}

} // verus!

//! Domain read-models and the raw row shapes the store hands back.
//!
//! Identifiers are 128-bit values (the store's UUIDs, carried as plain
//! integers); timestamps are microseconds since the epoch.  The layer
//! that executes queries converts driver values into these shapes and
//! back; everything here is plain data.

use vstd::prelude::*;

verus! {

/// Author summary embedded in a post read-model.
pub struct User {
    pub id: u128,
    pub username: String,
}

/// A tag entity: unique name, many-to-many with posts.
pub struct Tag {
    pub id: u128,
    pub name: String,
    pub created_at: i64,
}

impl Clone for Tag {
    fn clone(&self) -> (r: Tag)
        ensures
            r == *self,
    {
        Tag { id: self.id, name: self.name.clone(), created_at: self.created_at }
    }
}

/// One row of a tag batch fetch: a tag together with the post it belongs to.
pub struct TagAssoc {
    pub post_id: u128,
    pub tag: Tag,
}

/// One row of a post fetch: post columns joined with the author columns,
/// in the order the fetch queries select them.
pub struct PostRow {
    pub id: u128,
    pub title: String,
    pub body: String,
    pub created_by: u128,
    pub slug: String,
    pub photo_url: Option<String>,
    pub created_at: i64,
    pub updated_at: i64,
    pub deleted_at: Option<i64>,
    pub published: bool,
    pub view_count: i64,
    pub like_count: i64,
    pub user_id: u128,
    pub username: String,
}

impl Clone for PostRow {
    fn clone(&self) -> (r: PostRow)
        ensures
            r == *self,
    {
        PostRow {
            id: self.id,
            title: self.title.clone(),
            body: self.body.clone(),
            created_by: self.created_by,
            slug: self.slug.clone(),
            photo_url: match &self.photo_url {
                Some(u) => Some(u.clone()),
                None => None,
            },
            created_at: self.created_at,
            updated_at: self.updated_at,
            deleted_at: self.deleted_at,
            published: self.published,
            view_count: self.view_count,
            like_count: self.like_count,
            user_id: self.user_id,
            username: self.username.clone(),
        }
    }
}

/// A post read-model: the row's columns, the embedded author summary,
/// and the post's tag set (ordered by name, possibly empty).
pub struct Post {
    pub id: u128,
    pub title: String,
    pub body: String,
    pub created_by: u128,
    pub slug: String,
    pub photo_url: Option<String>,
    pub created_at: i64,
    pub updated_at: i64,
    pub deleted_at: Option<i64>,
    pub published: bool,
    pub view_count: i64,
    pub like_count: i64,
    pub user: User,
    pub tags: Vec<Tag>,
}

/// Body of the health endpoint's answer.
pub struct HealthResponse {
    pub success: bool,
    pub message: String,
}

} // verus!

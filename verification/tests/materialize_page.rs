use blog_api::error::{single_post_response, AppError};
use blog_api::listing::listing_response;
use blog_api::materialize::{
    dedup_rows, make_page_posts, make_single_post, post_ids, tags_for_post, truncate_preview,
};
use blog_api::model::{PostRow, Tag, TagAssoc};

fn row(id: u128, title: &str, body: &str, username: &str) -> PostRow {
    PostRow {
        id,
        title: title.to_string(),
        body: body.to_string(),
        created_by: 7,
        slug: format!("slug-{id}"),
        photo_url: None,
        created_at: 1_000,
        updated_at: 2_000,
        deleted_at: None,
        published: true,
        view_count: 3,
        like_count: 4,
        user_id: 7,
        username: username.to_string(),
    }
}

fn tag(id: u128, name: &str) -> Tag {
    Tag { id, name: name.to_string(), created_at: 500 }
}

#[test]
fn batched_tags_are_grouped_per_post() {
    let a = row(1, "A", "body a", "alice");
    let b = row(2, "B", "body b", "bob");
    let rows = vec![a, b];
    // One batched fetch, ordered by tag name, covering the whole page.
    let assocs = vec![
        TagAssoc { post_id: 1, tag: tag(10, "x") },
        TagAssoc { post_id: 1, tag: tag(11, "y") },
    ];
    let posts = make_page_posts(&rows, &assocs);
    assert_eq!(posts.len(), 2);
    let names: Vec<&str> = posts[0].tags.iter().map(|t| t.name.as_str()).collect();
    assert_eq!(names, vec!["x", "y"]);
    assert!(posts[1].tags.is_empty());
}

#[test]
fn page_posts_carry_columns_and_author() {
    let rows = vec![row(9, "Title", "Body", "carol")];
    let posts = make_page_posts(&rows, &Vec::new());
    assert_eq!(posts[0].id, 9);
    assert_eq!(posts[0].title, "Title");
    assert_eq!(posts[0].body, "Body");
    assert_eq!(posts[0].user.id, 7);
    assert_eq!(posts[0].user.username, "carol");
    assert!(posts[0].tags.is_empty());
}

#[test]
fn preview_truncates_long_body() {
    let body: String = "a".repeat(250);
    let preview = truncate_preview(&body);
    let mut expected = "a".repeat(200);
    expected.push_str("...");
    assert_eq!(preview, expected);
    assert_eq!(preview.chars().count(), 203);
}

#[test]
fn preview_keeps_short_body() {
    let body: String = "b".repeat(150);
    assert_eq!(truncate_preview(&body), body);
    let exact: String = "c".repeat(200);
    assert_eq!(truncate_preview(&exact), exact);
}

#[test]
fn list_view_bodies_are_previews() {
    let rows = vec![row(1, "T", &"x".repeat(250), "alice")];
    let posts = make_page_posts(&rows, &Vec::new());
    assert_eq!(posts[0].body.chars().count(), 203);
    assert!(posts[0].body.ends_with("..."));
}

#[test]
fn duplicate_rows_appear_once() {
    let rows = vec![
        row(1, "first", "body", "alice"),
        row(2, "other", "body", "bob"),
        row(1, "second copy", "body", "alice"),
    ];
    let deduped = dedup_rows(&rows);
    assert_eq!(deduped.len(), 2);
    assert_eq!(deduped[0].id, 1);
    assert_eq!(deduped[0].title, "first");
    assert_eq!(deduped[1].id, 2);
}

#[test]
fn tags_for_post_picks_matching_rows_in_order() {
    let assocs = vec![
        TagAssoc { post_id: 2, tag: tag(1, "alpha") },
        TagAssoc { post_id: 1, tag: tag(2, "beta") },
        TagAssoc { post_id: 2, tag: tag(3, "gamma") },
    ];
    let tags = tags_for_post(&assocs, 2);
    let names: Vec<&str> = tags.iter().map(|t| t.name.as_str()).collect();
    assert_eq!(names, vec!["alpha", "gamma"]);
    assert!(tags_for_post(&assocs, 99).is_empty());
}

#[test]
fn post_ids_in_page_order() {
    let rows = vec![row(5, "a", "b", "u"), row(3, "c", "d", "u")];
    let posts = make_page_posts(&rows, &Vec::new());
    assert_eq!(post_ids(&posts), vec![5, 3]);
}

#[test]
fn single_post_keeps_full_body_and_fetched_tags() {
    let body: String = "z".repeat(250);
    let p = make_single_post(row(4, "T", &body, "dave"), vec![tag(1, "t1")]);
    assert_eq!(p.body.chars().count(), 250);
    assert_eq!(p.tags.len(), 1);
    assert_eq!(p.user.username, "dave");
}

#[test]
fn missing_lookup_is_not_found() {
    let r = single_post_response(None, "ghost", "nope");
    match r {
        Err(AppError::NotFound(m)) => {
            assert_eq!(m, "Post not found: nope by ghost");
        }
        _ => panic!("expected the not-found outcome"),
    }
}

#[test]
fn found_lookup_is_success_envelope() {
    let p = make_single_post(row(4, "T", "body", "dave"), Vec::new());
    let r = single_post_response(Some(p), "dave", "slug-4");
    match r {
        Ok(resp) => {
            assert!(resp.success);
            assert_eq!(resp.data.as_ref().map(|p| p.id), Some(4));
            assert_eq!(resp.meta.total_pages, 0);
        }
        Err(_) => panic!("expected a success envelope"),
    }
}

#[test]
fn listing_response_dedups_attaches_and_paginates() {
    let rows = vec![
        row(1, "A", "body", "alice"),
        row(1, "A again", "body", "alice"),
        row(2, "B", "body", "bob"),
    ];
    let assocs = vec![
        TagAssoc { post_id: 1, tag: tag(10, "x") },
        TagAssoc { post_id: 1, tag: tag(11, "y") },
    ];
    let r = listing_response(rows, &assocs, true, 12, 5, 0);
    assert!(r.success);
    assert_eq!(r.meta.total_items, 12);
    assert_eq!(r.meta.total_pages, 3);
    let posts = r.data.unwrap();
    assert_eq!(posts.len(), 2);
    assert_eq!(posts[0].tags.len(), 2);
    assert!(posts[1].tags.is_empty());
}

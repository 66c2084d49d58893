//! The pages of the board: what each one shows, and the decisions each one
//! makes between its database requests.
pub mod create_post;
pub mod create_reply;
pub mod error;
pub mod generate_post;
pub mod generate_reply;
pub mod generation;
pub mod index;
pub mod new_posts;
pub mod old_posts;
pub mod posts;
pub mod submit_post;
pub mod submit_reply;

use vstd::prelude::*;
use crate::state_db::models::Post;

verus! {

/// The id of the first post of a listing, or `default` when it is empty.
pub open spec fn first_id_or(posts: Seq<Post>, default: i64) -> i64 {
    if posts.len() > 0 {
        posts[0].id
    } else {
        default
    }
}

/// The id of the last post of a listing, or `default` when it is empty.
pub open spec fn last_id_or(posts: Seq<Post>, default: i64) -> i64 {
    if posts.len() > 0 {
        posts[posts.len() - 1].id
    } else {
        default
    }
}

/// The id of the first post of a listing, or `default` when it is empty.
pub fn first_post_id_or(posts: &Vec<Post>, default: i64) -> (id: i64)
    ensures
        id == first_id_or(posts@, default),
        posts@.len() > 0 ==> id == posts@[0].id,
        posts@.len() == 0 ==> id == default,
{
    if posts.len() > 0 {
        posts[0].id
    } else {
        default
    }
}

/// The id of the last post of a listing, or `default` when it is empty.
pub fn last_post_id_or(posts: &Vec<Post>, default: i64) -> (id: i64)
    ensures
        id == last_id_or(posts@, default),
        posts@.len() > 0 ==> id == posts@[posts@.len() - 1].id,
        posts@.len() == 0 ==> id == default,
{
    if posts.len() > 0 {
        posts[posts.len() - 1].id
    } else {
        default
    }
}

/// Law of the newer-posts bound: for any listing that holds a post, the
/// bound is the id of its first (newest) post, whatever the default; the
/// default is kept only when the listing is empty.
pub proof fn law_newer_bound_is_first_post(posts: Seq<Post>, default: i64)
    ensures
        posts.len() > 0 ==> first_id_or(posts, default) == posts[0].id,
        posts.len() == 0 ==> first_id_or(posts, default) == default,
        forall|other: i64| posts.len() > 0 ==> first_id_or(posts, default) == first_id_or(posts, other),
{
}

/// Law of the older-posts bound: for any listing that holds a post, the
/// bound is the id of its last (oldest) post, whatever the default; the
/// default is kept only when the listing is empty.
pub proof fn law_older_bound_is_last_post(posts: Seq<Post>, default: i64)
    ensures
        posts.len() > 0 ==> last_id_or(posts, default) == posts[posts.len() - 1].id,
        posts.len() == 0 ==> last_id_or(posts, default) == default,
        forall|other: i64| posts.len() > 0 ==> last_id_or(posts, default) == last_id_or(posts, other),
{
}

} // verus!

//! The front page: the latest posts.
use vstd::prelude::*;
use crate::state_db::DBError;
use crate::state_db::models::Post;
use crate::web::error::WebError;
use crate::web::{first_id_or, last_id_or, first_post_id_or, last_post_id_or};

verus! {

/// The front page: the latest posts, the ids that bound them (the newest
/// post's id, to ask for newer posts, and the oldest post's id, to ask for
/// older ones), and no older, newer or generated content yet.
#[derive(Debug)]
pub struct IndexTemplate {
    pub posts: Vec<Post>,
    pub after_id: i64,
    pub before_id: i64,
    pub old_posts: Vec<Post>,
    pub new_posts: Vec<Post>,
    pub generated_reply: Option<String>,
}

impl IndexTemplate {
    /// The front page made from the latest posts (newest first). With no
    /// posts at all, both bounds are 0.
    pub fn from_latest(posts: Vec<Post>) -> (t: IndexTemplate)
        ensures
            t.posts == posts,
            t.after_id == first_id_or(posts@, 0),
            t.before_id == last_id_or(posts@, 0),
            t.old_posts@.len() == 0,
            t.new_posts@.len() == 0,
            t.generated_reply is None,
    {
        let after_id = first_post_id_or(&posts, 0);
        let before_id = last_post_id_or(&posts, 0);
        IndexTemplate {
            posts,
            after_id,
            before_id,
            old_posts: Vec::new(),
            new_posts: Vec::new(),
            generated_reply: None,
        }
    }
}

/// The answer to the front page once the latest posts were read.
pub fn respond(latest: Result<Vec<Post>, DBError>) -> (r: Result<IndexTemplate, WebError>)
    ensures
        match latest {
            Ok(posts) => r matches Ok(t) && t.posts == posts && t.after_id == first_id_or(posts@, 0)
                && t.before_id == last_id_or(posts@, 0) && t.old_posts@.len() == 0
                && t.new_posts@.len() == 0 && t.generated_reply is None,
            Err(e) => r == Err::<IndexTemplate, WebError>(WebError::DB(e)),
        },
{
    match latest {
        Ok(posts) => Ok(IndexTemplate::from_latest(posts)),
        Err(e) => Err(WebError::DB(e)),
    }
}

} // verus!

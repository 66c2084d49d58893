//! The posts written before the oldest post a browser has.
use vstd::prelude::*;
use crate::state_db::DBError;
use crate::state_db::models::Post;
use crate::web::error::WebError;
use crate::web::{last_id_or, last_post_id_or};

verus! {

/// The older posts, and the id to ask from next time: that of the oldest
/// post shown.
#[derive(Debug)]
pub struct OldPostsTemplate {
    pub before_id: i64,
    pub old_posts: Vec<Post>,
    pub generated_reply: Option<String>,
}

/// The form of a request for older posts: the id of the oldest post the
/// browser has.
#[derive(Debug)]
pub struct OldPostData {
    pub before: i64,
}

/// The answer to a request for the posts before `form.before`, once they
/// were read (newest first): the next bound is the oldest post's id, or stays
/// `form.before` when there is nothing older.
pub fn respond(form: OldPostData, older: Result<Vec<Post>, DBError>) -> (r: Result<OldPostsTemplate, WebError>)
    ensures
        match older {
            Ok(posts) => r matches Ok(t) && t.old_posts == posts && t.before_id == last_id_or(posts@, form.before)
                && t.generated_reply is None,
            Err(e) => r == Err::<OldPostsTemplate, WebError>(WebError::DB(e)),
        },
{
    match older {
        Ok(posts) => {
            let before_id = last_post_id_or(&posts, form.before);
            Ok(OldPostsTemplate { before_id, old_posts: posts, generated_reply: None })
        },
        Err(e) => Err(WebError::DB(e)),
    }
}

} // verus!

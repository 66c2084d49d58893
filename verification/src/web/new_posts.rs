//! The posts written since the newest post a browser has.
use vstd::prelude::*;
use crate::state_db::DBError;
use crate::state_db::models::Post;
use crate::web::error::WebError;
use crate::web::{first_id_or, first_post_id_or};

verus! {

/// The newer posts, and the id to ask from next time: that of the newest
/// post shown.
#[derive(Debug)]
pub struct PostsTemplate {
    pub after_id: i64,
    pub new_posts: Vec<Post>,
    pub generated_reply: Option<String>,
}

/// The form of a request for newer posts: the id of the newest post the
/// browser has.
#[derive(Debug)]
pub struct NewPostData {
    pub after: i64,
}

/// The answer to a request for the posts after `form.after`, once they were
/// read (newest first): the next bound is the newest post's id, or stays
/// `form.after` when there is nothing new.
pub fn respond(form: NewPostData, newer: Result<Vec<Post>, DBError>) -> (r: Result<PostsTemplate, WebError>)
    ensures
        match newer {
            Ok(posts) => r matches Ok(t) && t.new_posts == posts && t.after_id == first_id_or(posts@, form.after)
                && t.generated_reply is None,
            Err(e) => r == Err::<PostsTemplate, WebError>(WebError::DB(e)),
        },
{
    match newer {
        Ok(posts) => {
            let after_id = first_post_id_or(&posts, form.after);
            Ok(PostsTemplate { after_id, new_posts: posts, generated_reply: None })
        },
        Err(e) => Err(WebError::DB(e)),
    }
}

} // verus!

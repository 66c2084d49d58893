//! The stream that writes a reply to a post with the language model.
use vstd::prelude::*;
use vstd::string::*;
use crate::state_db::DBError;
use crate::web::error::WebError;

verus! {

/// The button shown once a reply has been generated: it offers to publish
/// the generation with the given id, whose text is `reply_data`, as a reply
/// to the post `post_id`.
#[derive(Debug)]
pub struct ReplyButton {
    pub generation_id: i64,
    pub reply_data: String,
    pub post_id: i64,
}

/// The path of a reply generation: the post replied to, and the generation
/// group that the finished reply is stored in.
#[derive(Debug)]
pub struct PathData {
    pub post_id: i64,
    pub generation_group: i64,
}

/// The first step of a reply generation, after the content of the post
/// replied to was read: the board's configured prompt, which creates posts
/// and replies alike, once the post's content is there; or the database
/// error of that read.
pub fn prompt_for_post(configured: &str, post_content: Result<String, DBError>) -> (r: Result<String, WebError>)
    ensures
        match post_content {
            Ok(_) => r matches Ok(prompt) && prompt@ == configured@,
            Err(e) => r == Err::<String, WebError>(WebError::DB(e)),
        },
{
    match post_content {
        Ok(_) => Ok(String::from_str(configured)),
        Err(e) => Err(WebError::DB(e)),
    }
}

} // verus!

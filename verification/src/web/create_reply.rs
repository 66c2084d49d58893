//! The form that starts a reply to a post.
use vstd::prelude::*;
use crate::state_db::DBError;
use crate::web::error::WebError;

verus! {

/// The form that starts a reply to the post `post_id`: it generates into the
/// generation group `gen_group`.
#[derive(Debug)]
pub struct NewReplyTemplate {
    pub index: u32,
    pub post_id: i64,
    pub gen_group: i64,
}

/// The path of a reply form: the post replied to.
#[derive(Debug)]
pub struct PathData {
    pub post_id: i64,
}

/// The answer to a request for a reply form, once a generation group was
/// opened for it.
pub fn respond(p: PathData, gen_group: Result<i64, DBError>) -> (r: Result<NewReplyTemplate, WebError>)
    ensures
        match gen_group {
            Ok(g) => r == Ok::<NewReplyTemplate, WebError>(NewReplyTemplate { index: 3, post_id: p.post_id, gen_group: g }),
            Err(e) => r == Err::<NewReplyTemplate, WebError>(WebError::DB(e)),
        },
{
    match gen_group {
        Ok(g) => Ok(NewReplyTemplate { index: 3, post_id: p.post_id, gen_group: g }),
        Err(e) => Err(WebError::DB(e)),
    }
}

} // verus!

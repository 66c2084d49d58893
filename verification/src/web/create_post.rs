//! The form that starts a new post.
use vstd::prelude::*;
use crate::state_db::DBError;
use crate::web::error::WebError;

verus! {

/// The form that starts a new post: it generates into the generation group
/// `gen_group`.
#[derive(Debug)]
pub struct NewPostTemplate {
    pub index: u32,
    pub gen_group: i64,
}

/// The answer to a request for a new post form, once a generation group was
/// opened for it.
pub fn respond(gen_group: Result<i64, DBError>) -> (r: Result<NewPostTemplate, WebError>)
    ensures
        match gen_group {
            Ok(g) => r == Ok::<NewPostTemplate, WebError>(NewPostTemplate { index: 3, gen_group: g }),
            Err(e) => r == Err::<NewPostTemplate, WebError>(WebError::DB(e)),
        },
{
    match gen_group {
        Ok(g) => Ok(NewPostTemplate { index: 3, gen_group: g }),
        Err(e) => Err(WebError::DB(e)),
    }
}

} // verus!

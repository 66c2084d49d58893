//! Publishing a generation as a new post. A generation belongs to a
//! generation group, and a group can be published once: the page first asks
//! the database whether the generation's group is used, refuses a used one,
//! and otherwise writes the post, which marks the group used.
use vstd::prelude::*;
use crate::state_db::DBError;
use crate::web::error::WebError;

verus! {

/// The answer to a published post: the button to start another one.
#[derive(Debug)]
pub struct CreatePostButtonTemplate {}

/// The path of a publication: the generation to publish.
#[derive(Debug)]
pub struct PathData {
    pub generation_id: i64,
}

/// What the publication does after its first request, which asks whether
/// the group of `generation_id` is used.
#[derive(Debug)]
pub enum SubmitPostStep {
    /// Write the generation as a post and mark its group used.
    WritePost { generation_id: i64 },
    /// Answer the browser.
    Respond(Result<CreatePostButtonTemplate, WebError>),
}

/// Decides on a publication once the database said whether the generation's
/// group is used: a used group is refused with `GenerationAlreadyUsed` and
/// nothing is written; an unused one is written as a post.
pub fn after_used_check(p: &PathData, used: Result<bool, DBError>) -> (step: SubmitPostStep)
    ensures
        match used {
            Err(e) => step == SubmitPostStep::Respond(Err(WebError::DB(e))),
            Ok(true) => step == SubmitPostStep::Respond(Err(WebError::GenerationAlreadyUsed)),
            Ok(false) => step == (SubmitPostStep::WritePost { generation_id: p.generation_id }),
        },
{
    match used {
        Err(e) => SubmitPostStep::Respond(Err(WebError::DB(e))),
        Ok(true) => SubmitPostStep::Respond(Err(WebError::GenerationAlreadyUsed)),
        Ok(false) => SubmitPostStep::WritePost { generation_id: p.generation_id },
    }
}

/// The answer once the post was written: the button for a new post.
pub fn after_write(written: Result<(), DBError>) -> (r: Result<CreatePostButtonTemplate, WebError>)
    ensures
        match written {
            Ok(()) => r == Ok::<CreatePostButtonTemplate, WebError>(CreatePostButtonTemplate {}),
            Err(e) => r == Err::<CreatePostButtonTemplate, WebError>(WebError::DB(e)),
        },
{
    match written {
        Ok(()) => Ok(CreatePostButtonTemplate {}),
        Err(e) => Err(WebError::DB(e)),
    }
}

} // verus!

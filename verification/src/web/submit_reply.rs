//! Publishing a generation as a reply to a post. As for a post, a
//! generation's group can be published once; once the reply is written, its
//! text is read back and shown.
use vstd::prelude::*;
use crate::state_db::DBError;
use crate::web::error::WebError;

verus! {

/// The answer to a published reply: the button for another reply to the
/// post, with the text of the reply just published.
#[derive(Debug)]
pub struct CreateReplyButtonTemplate {
    pub post_id: i64,
    pub generated_reply: Option<String>,
}

/// The path of a reply publication: the post replied to and the generation
/// to publish.
#[derive(Debug)]
pub struct PathData {
    pub post_id: i64,
    pub generation_id: i64,
}

/// What the publication does after each request; its first request asks
/// whether the group of `generation_id` is used.
#[derive(Debug)]
pub enum SubmitReplyStep {
    /// Write the generation as a reply to `post_id` and mark its group used.
    WriteReply { generation_id: i64, post_id: i64 },
    /// Read back the content of the generation.
    ReadGeneration { generation_id: i64 },
    /// Answer the browser.
    Respond(Result<CreateReplyButtonTemplate, WebError>),
}

/// Decides on a reply publication once the database said whether the
/// generation's group is used: a used group is refused with
/// `GenerationAlreadyUsed` and nothing is written; an unused one is written
/// as a reply to the post.
pub fn after_used_check(p: &PathData, used: Result<bool, DBError>) -> (step: SubmitReplyStep)
    ensures
        match used {
            Err(e) => step == SubmitReplyStep::Respond(Err(WebError::DB(e))),
            Ok(true) => step == SubmitReplyStep::Respond(Err(WebError::GenerationAlreadyUsed)),
            Ok(false) => step == (SubmitReplyStep::WriteReply { generation_id: p.generation_id, post_id: p.post_id }),
        },
{
    match used {
        Err(e) => SubmitReplyStep::Respond(Err(WebError::DB(e))),
        Ok(true) => SubmitReplyStep::Respond(Err(WebError::GenerationAlreadyUsed)),
        Ok(false) => SubmitReplyStep::WriteReply { generation_id: p.generation_id, post_id: p.post_id },
    }
}

/// Once the reply was written, reads back the generation's content.
pub fn after_write(p: &PathData, written: Result<(), DBError>) -> (step: SubmitReplyStep)
    ensures
        match written {
            Ok(()) => step == (SubmitReplyStep::ReadGeneration { generation_id: p.generation_id }),
            Err(e) => step == SubmitReplyStep::Respond(Err(WebError::DB(e))),
        },
{
    match written {
        Ok(()) => SubmitReplyStep::ReadGeneration { generation_id: p.generation_id },
        Err(e) => SubmitReplyStep::Respond(Err(WebError::DB(e))),
    }
}

/// The answer once the generation's content was read back: the reply button
/// for the post, showing exactly that content.
pub fn after_read(p: &PathData, content: Result<String, DBError>) -> (r: Result<CreateReplyButtonTemplate, WebError>)
    ensures
        match content {
            Ok(c) => r == Ok::<CreateReplyButtonTemplate, WebError>(
                CreateReplyButtonTemplate { post_id: p.post_id, generated_reply: Some(c) },
            ),
            Err(e) => r == Err::<CreateReplyButtonTemplate, WebError>(WebError::DB(e)),
        },
{
    match content {
        Ok(c) => Ok(CreateReplyButtonTemplate { post_id: p.post_id, generated_reply: Some(c) }),
        Err(e) => Err(WebError::DB(e)),
    }
}

} // verus!

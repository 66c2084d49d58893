//! The stream that writes a new post with the language model.
use vstd::prelude::*;

verus! {

/// The button shown once a post has been generated: it offers to publish
/// the generation with the given id, whose text is `post_data`.
#[derive(Debug)]
pub struct PostButton {
    pub generation_id: i64,
    pub post_data: String,
}

} // verus!

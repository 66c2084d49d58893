//! A bare listing of the latest posts' texts.
use vstd::prelude::*;

verus! {

/// A post of the bare listing: its text.
#[derive(Debug)]
pub struct Post {
    pub content: String,
}

/// The bare listing of the latest posts' texts.
#[derive(Debug)]
pub struct PostsTemplate {
    pub posts: Vec<Post>,
}

} // verus!

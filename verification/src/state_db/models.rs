use vstd::prelude::*;

verus! {

/// A post as shown on the board: its id, the text of the generation it was
/// made from, and the texts of its replies in the order the database gave them.
#[derive(Debug)]
pub struct Post {
    pub id: i64,
    pub content: String,
    pub replies: Vec<String>,
}

} // verus!

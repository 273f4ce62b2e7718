use vstd::prelude::*;

verus! {

/// A stored comment on a post.
pub struct Comment {
    pub id: u128,
    pub post_id: u128,
    pub user_id: u128,
    pub body: String,
    pub created_at: i64,
}

/// What a client sends to comment on a post.
pub struct PostComment {
    pub body: String,
}

} // verus!

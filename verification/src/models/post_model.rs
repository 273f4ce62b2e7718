use vstd::prelude::*;

verus! {

/// A stored post; `user_id` is its author.
pub struct Post {
    pub id: u128,
    pub title: String,
    pub body: String,
    pub user_id: u128,
    pub likes_count: i64,
    pub created_at: i64,
}

/// What a client sends to publish a post.
pub struct CreatePostInput {
    pub title: String,
    pub body: String,
}

/// The fields of a post its author may change; absent fields stay.
pub struct UpdatePost {
    pub title: Option<String>,
    pub body: Option<String>,
}

} // verus!

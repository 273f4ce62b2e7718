use vstd::prelude::*;

verus! {

/// A user's like of a post.
pub struct Like {
    pub id: u128,
    pub user_id: u128,
    pub post_id: u128,
}

} // verus!

//! Likes: liking and unliking posts, and reading like counts.
use crate::models::like_model::Like;
use crate::services::flow;
use crate::services::flow::{
    fail, fail_owned, fail_unexpected, succeed, succeed_with_message, Action, Body, CacheOp, Event,
    Query, BAD_REQUEST, CONFLICT, INTERNAL_SERVER_ERROR, NOT_FOUND,
};
use crate::services::read_flow;
use crate::services::read_flow::{start_lookup, ItemFlow, Lookup};
use crate::services::user_service::subject_id;
use crate::utils::cache::keys;
use crate::utils::ids;
use crate::utils::jwt::Claims;
use vstd::prelude::*;
use vstd::string::*;

verus! {

/// The cache removals after `user`'s like of `post` changed: the post's
/// cached like count, the cached like status of the pair, and the cached
/// post.
pub open spec fn like_invalidations(ops: Seq<CacheOp>, user: u128, post: u128) -> bool {
    &&& ops.len() == 3
    &&& ops[0] matches CacheOp::Delete(k) && k@ == keys::id_key("likes:count:"@, post)
    &&& ops[1] matches CacheOp::Delete(k) && k@ == keys::id_key("user:"@, user) + ":liked:"@ + ids::uuid_text(post)
    &&& ops[2] matches CacheOp::Delete(k) && k@ == keys::id_key("post:"@, post)
}

fn like_ops(user: u128, post: u128) -> (ops: Vec<CacheOp>)
    ensures
        like_invalidations(ops@, user, post),
{
    let mut ops: Vec<CacheOp> = Vec::new();
    ops.push(CacheOp::Delete(crate::utils::cache::keys::post_likes(post)));
    ops.push(CacheOp::Delete(crate::utils::cache::keys::user_liked_post(user, post)));
    ops.push(CacheOp::Delete(crate::utils::cache::keys::post(post)));
    ops
}

/// Where a like request stands.
pub enum LikePostFlow {
    /// Asked whether `user` already likes `post`.
    Checking { user: u128, post: u128 },
    /// Asked to open the transaction.
    Beginning { user: u128, post: u128 },
    /// Asked to record the like.
    Inserting { user: u128, post: u128 },
    /// Asked to add one to the post's like count.
    Counting { user: u128, post: u128, like: Like },
    /// Asked to commit.
    Committing { user: u128, post: u128, like: Like },
    /// Asked to remove stale cache entries.
    Invalidating { like: Like },
    /// Replied.
    Finished,
}

impl LikePostFlow {
    /// Whether `f` and `a` are how a like request can start: replied at
    /// once, or asking whether the like exists.
    pub open spec fn opens(f: LikePostFlow, a: Action) -> bool {
        match f {
            LikePostFlow::Finished => a is Finish,
            LikePostFlow::Checking { user, post } => a == Action::Run(Query::LikeExists { user, post }),
            _ => false,
        }
    }

    /// What answering `ev` leads to: the next state and action `r`.
    pub open spec fn steps_to(self, ev: Event, r: (LikePostFlow, Action)) -> bool {
        match self {
            LikePostFlow::Checking { user, post } => match ev {
                Event::Flag(true) => r.0 is Finished && flow::fails_with(r.1, CONFLICT, "Already liked"@),
                Event::Flag(false) => r.0 == (LikePostFlow::Beginning { user, post }) && r.1 == Action::BeginTransaction,
                Event::Failed(_) => r.0 is Finished && flow::fails_as_storage(r.1, ev),
                _ => r.0 is Finished && flow::fails_unexpectedly(r.1),
            },
            LikePostFlow::Beginning { user, post } => match ev {
                Event::Done => r.0 == (LikePostFlow::Inserting { user, post }) && r.1 == Action::Run(Query::InsertLike { user, post }),
                Event::Failed(_) => r.0 is Finished && flow::fails_as_storage(r.1, ev),
                _ => r.0 is Finished && flow::fails_unexpectedly(r.1),
            },
            LikePostFlow::Inserting { user, post } => match ev {
                Event::Like(l) => r.0 == (LikePostFlow::Counting { user, post, like: l }) && r.1 == Action::Run(Query::IncrementLikes(post)),
                Event::Failed(_) => r.0 is Finished && flow::fails_as_storage(r.1, ev),
                _ => r.0 is Finished && flow::fails_unexpectedly(r.1),
            },
            LikePostFlow::Counting { user, post, like } => match ev {
                Event::Done => r.0 == (LikePostFlow::Committing { user, post, like }) && r.1 == Action::CommitTransaction,
                Event::Failed(_) => r.0 is Finished && flow::fails_as_storage(r.1, ev),
                _ => r.0 is Finished && flow::fails_unexpectedly(r.1),
            },
            LikePostFlow::Committing { user, post, like } => match ev {
                Event::Done => {
                    &&& r.0 == (LikePostFlow::Invalidating { like })
                    &&& r.1 matches Action::Invalidate(ops)
                    &&& like_invalidations(ops@, user, post)
                },
                Event::Failed(_) => r.0 is Finished && flow::fails_as_storage(r.1, ev),
                _ => r.0 is Finished && flow::fails_unexpectedly(r.1),
            },
            LikePostFlow::Invalidating { like } => r.0 is Finished && flow::succeeds_with(r.1, Body::Like(like)),
            LikePostFlow::Finished => true,
        }
    }

    /// Takes the answer to the last action. An existing like ends the
    /// request with 409. Otherwise, in one transaction, the like is recorded
    /// and the post's count goes up by one; after the commit the cached
    /// count, like status and post are removed and the reply carries the
    /// like.
    pub fn resume(self, ev: Event) -> (r: (LikePostFlow, Action))
        requires
            !(self is Finished),
        ensures
            self.steps_to(ev, r),
    {
        match self {
            LikePostFlow::Checking { user, post } => match ev {
                Event::Flag(liked) => {
                    if liked {
                        (LikePostFlow::Finished, fail(CONFLICT, "Already liked"))
                    } else {
                        (LikePostFlow::Beginning { user, post }, Action::BeginTransaction)
                    }
                },
                Event::Failed(m) => (LikePostFlow::Finished, fail_owned(INTERNAL_SERVER_ERROR, m)),
                _ => (LikePostFlow::Finished, fail_unexpected()),
            },
            LikePostFlow::Beginning { user, post } => match ev {
                Event::Done => (LikePostFlow::Inserting { user, post }, Action::Run(Query::InsertLike { user, post })),
                Event::Failed(m) => (LikePostFlow::Finished, fail_owned(INTERNAL_SERVER_ERROR, m)),
                _ => (LikePostFlow::Finished, fail_unexpected()),
            },
            LikePostFlow::Inserting { user, post } => match ev {
                Event::Like(l) => (LikePostFlow::Counting { user, post, like: l }, Action::Run(Query::IncrementLikes(post))),
                Event::Failed(m) => (LikePostFlow::Finished, fail_owned(INTERNAL_SERVER_ERROR, m)),
                _ => (LikePostFlow::Finished, fail_unexpected()),
            },
            LikePostFlow::Counting { user, post, like } => match ev {
                Event::Done => (LikePostFlow::Committing { user, post, like }, Action::CommitTransaction),
                Event::Failed(m) => (LikePostFlow::Finished, fail_owned(INTERNAL_SERVER_ERROR, m)),
                _ => (LikePostFlow::Finished, fail_unexpected()),
            },
            LikePostFlow::Committing { user, post, like } => match ev {
                Event::Done => (LikePostFlow::Invalidating { like }, Action::Invalidate(like_ops(user, post))),
                Event::Failed(m) => (LikePostFlow::Finished, fail_owned(INTERNAL_SERVER_ERROR, m)),
                _ => (LikePostFlow::Finished, fail_unexpected()),
            },
            LikePostFlow::Invalidating { like } => (LikePostFlow::Finished, succeed(Body::Like(like))),
            LikePostFlow::Finished => (LikePostFlow::Finished, fail_unexpected()),
        }
    }
}

/// Starts the caller's like of `post`. A rejected token ends it with the
/// token check's status and a subject that is no identifier with 400;
/// otherwise an existing like is looked for first.
pub fn like_post(auth: Result<Claims, u16>, post: u128) -> (r: (LikePostFlow, Action))
    ensures
        LikePostFlow::opens(r.0, r.1),
        auth matches Err(status) ==> r.0 is Finished && flow::fails_with(r.1, status, "Unauthorized"@),
        auth matches Ok(c) ==> match ids::uuid_parse(c.sub@) {
            None => r.0 is Finished && flow::fails_with(r.1, BAD_REQUEST, "Invalid user ID format"@),
            Some(user) => r.0 == (LikePostFlow::Checking { user, post }) && r.1 == Action::Run(Query::LikeExists { user, post }),
        },
{
    let claims = match auth {
        Ok(c) => c,
        Err(status) => return (LikePostFlow::Finished, fail(status, "Unauthorized")),
    };
    match subject_id(&claims) {
        Some(user) => (LikePostFlow::Checking { user, post }, Action::Run(Query::LikeExists { user, post })),
        None => (LikePostFlow::Finished, fail(BAD_REQUEST, "Invalid user ID format")),
    }
}

/// Where an unlike request stands.
pub enum UnlikePostFlow {
    /// Asked to open the transaction.
    Beginning { user: u128, post: u128 },
    /// Asked to remove the like.
    Deleting { user: u128, post: u128 },
    /// Asked to take one from the post's like count.
    Counting { user: u128, post: u128 },
    /// Asked to commit.
    Committing { user: u128, post: u128 },
    /// Asked to remove stale cache entries.
    Invalidating,
    /// Replied.
    Finished,
}

impl UnlikePostFlow {
    /// Whether `f` and `a` are how an unlike request can start: replied at
    /// once, or opening its transaction.
    pub open spec fn opens(f: UnlikePostFlow, a: Action) -> bool {
        match f {
            UnlikePostFlow::Finished => a is Finish,
            UnlikePostFlow::Beginning { .. } => a == Action::BeginTransaction,
            _ => false,
        }
    }

    /// What answering `ev` leads to: the next state and action `r`.
    pub open spec fn steps_to(self, ev: Event, r: (UnlikePostFlow, Action)) -> bool {
        match self {
            UnlikePostFlow::Beginning { user, post } => match ev {
                Event::Done => r.0 == (UnlikePostFlow::Deleting { user, post }) && r.1 == Action::Run(Query::DeleteLike { user, post }),
                Event::Failed(_) => r.0 is Finished && flow::fails_as_storage(r.1, ev),
                _ => r.0 is Finished && flow::fails_unexpectedly(r.1),
            },
            UnlikePostFlow::Deleting { user, post } => match ev {
                Event::Rows(n) => if n == 0 {
                    r.0 is Finished && flow::fails_with(r.1, NOT_FOUND, "Like not found"@)
                } else {
                    r.0 == (UnlikePostFlow::Counting { user, post }) && r.1 == Action::Run(Query::DecrementLikes(post))
                },
                Event::Failed(_) => r.0 is Finished && flow::fails_as_storage(r.1, ev),
                _ => r.0 is Finished && flow::fails_unexpectedly(r.1),
            },
            UnlikePostFlow::Counting { user, post } => match ev {
                Event::Done => r.0 == (UnlikePostFlow::Committing { user, post }) && r.1 == Action::CommitTransaction,
                Event::Failed(_) => r.0 is Finished && flow::fails_as_storage(r.1, ev),
                _ => r.0 is Finished && flow::fails_unexpectedly(r.1),
            },
            UnlikePostFlow::Committing { user, post } => match ev {
                Event::Done => {
                    &&& r.0 is Invalidating
                    &&& r.1 matches Action::Invalidate(ops)
                    &&& like_invalidations(ops@, user, post)
                },
                Event::Failed(_) => r.0 is Finished && flow::fails_as_storage(r.1, ev),
                _ => r.0 is Finished && flow::fails_unexpectedly(r.1),
            },
            UnlikePostFlow::Invalidating => r.0 is Finished && flow::succeeds_with_message(r.1, "Post unliked successfully"@),
            UnlikePostFlow::Finished => true,
        }
    }

    /// Takes the answer to the last action. In one transaction the like is
    /// removed (404, and no commit, when there was none) and the post's
    /// count goes down by one; after the commit the cached count, like
    /// status and post are removed and the request succeeds.
    pub fn resume(self, ev: Event) -> (r: (UnlikePostFlow, Action))
        requires
            !(self is Finished),
        ensures
            self.steps_to(ev, r),
    {
        match self {
            UnlikePostFlow::Beginning { user, post } => match ev {
                Event::Done => (UnlikePostFlow::Deleting { user, post }, Action::Run(Query::DeleteLike { user, post })),
                Event::Failed(m) => (UnlikePostFlow::Finished, fail_owned(INTERNAL_SERVER_ERROR, m)),
                _ => (UnlikePostFlow::Finished, fail_unexpected()),
            },
            UnlikePostFlow::Deleting { user, post } => match ev {
                Event::Rows(n) => {
                    if n == 0 {
                        (UnlikePostFlow::Finished, fail(NOT_FOUND, "Like not found"))
                    } else {
                        (UnlikePostFlow::Counting { user, post }, Action::Run(Query::DecrementLikes(post)))
                    }
                },
                Event::Failed(m) => (UnlikePostFlow::Finished, fail_owned(INTERNAL_SERVER_ERROR, m)),
                _ => (UnlikePostFlow::Finished, fail_unexpected()),
            },
            UnlikePostFlow::Counting { user, post } => match ev {
                Event::Done => (UnlikePostFlow::Committing { user, post }, Action::CommitTransaction),
                Event::Failed(m) => (UnlikePostFlow::Finished, fail_owned(INTERNAL_SERVER_ERROR, m)),
                _ => (UnlikePostFlow::Finished, fail_unexpected()),
            },
            UnlikePostFlow::Committing { user, post } => match ev {
                Event::Done => (UnlikePostFlow::Invalidating, Action::Invalidate(like_ops(user, post))),
                Event::Failed(m) => (UnlikePostFlow::Finished, fail_owned(INTERNAL_SERVER_ERROR, m)),
                _ => (UnlikePostFlow::Finished, fail_unexpected()),
            },
            UnlikePostFlow::Invalidating => (UnlikePostFlow::Finished, succeed_with_message("Post unliked successfully")),
            UnlikePostFlow::Finished => (UnlikePostFlow::Finished, fail_unexpected()),
        }
    }
}

/// Starts the removal of the caller's like of `post`. A rejected token
/// ends it with the token check's status and a subject that is no
/// identifier with 400; otherwise a transaction is opened.
pub fn unlike_post(auth: Result<Claims, u16>, post: u128) -> (r: (UnlikePostFlow, Action))
    ensures
        UnlikePostFlow::opens(r.0, r.1),
        auth matches Err(status) ==> r.0 is Finished && flow::fails_with(r.1, status, "Unauthorized"@),
        auth matches Ok(c) ==> match ids::uuid_parse(c.sub@) {
            None => r.0 is Finished && flow::fails_with(r.1, BAD_REQUEST, "Invalid user ID format"@),
            Some(user) => r.0 == (UnlikePostFlow::Beginning { user, post }) && r.1 == Action::BeginTransaction,
        },
{
    let claims = match auth {
        Ok(c) => c,
        Err(status) => return (UnlikePostFlow::Finished, fail(status, "Unauthorized")),
    };
    match subject_id(&claims) {
        Some(user) => (UnlikePostFlow::Beginning { user, post }, Action::BeginTransaction),
        None => (UnlikePostFlow::Finished, fail(BAD_REQUEST, "Invalid user ID format")),
    }
}

/// Starts the lookup of the like count of `post`, read from the cache
/// under `likes:count:<id>` first; a fetched count is not cached.
pub fn get_likes(auth: Result<Claims, u16>, post: u128) -> (r: (ItemFlow, Action))
    ensures
        auth matches Err(status) ==> r.0 is Finished && flow::fails_with(r.1, status, "Unauthorized"@),
        auth is Ok ==> read_flow::starts_lookup(r, keys::id_key("likes:count:"@, post), Lookup::LikesOf(post), "Post not found"@, None),
{
    match auth {
        Ok(_) => {},
        Err(status) => return (ItemFlow::Finished, fail(status, "Unauthorized")),
    }
    start_lookup(crate::utils::cache::keys::post_likes(post), Lookup::LikesOf(post), "Post not found", None)
}

/// Where a like-status request stands.
pub enum CheckUserLikeFlow {
    /// Asked whether the post exists.
    CheckingPost { user: u128, post: u128 },
    /// Asked whether `user` likes `post`.
    CheckingLike { post: u128 },
    /// Replied.
    Finished,
}

impl CheckUserLikeFlow {
    /// Takes the answer to the last action. A missing post ends the request
    /// with 404; otherwise the reply says whether the caller likes it.
    pub fn resume(self, ev: Event) -> (r: (CheckUserLikeFlow, Action))
        requires
            !(self is Finished),
        ensures
            match self {
                CheckUserLikeFlow::CheckingPost { user, post } => match ev {
                    Event::Flag(false) => r.0 is Finished && flow::fails_with(r.1, NOT_FOUND, "Post not found"@),
                    Event::Flag(true) => r.0 == (CheckUserLikeFlow::CheckingLike { post }) && r.1 == Action::Run(Query::LikeExists { user, post }),
                    Event::Failed(_) => r.0 is Finished && flow::fails_as_storage(r.1, ev),
                    _ => r.0 is Finished && flow::fails_unexpectedly(r.1),
                },
                CheckUserLikeFlow::CheckingLike { post } => r.0 is Finished && match ev {
                    Event::Flag(liked) => flow::succeeds_with(r.1, Body::LikeStatus { post_id: post, liked }),
                    Event::Failed(_) => flow::fails_as_storage(r.1, ev),
                    _ => flow::fails_unexpectedly(r.1),
                },
                CheckUserLikeFlow::Finished => true,
            },
    {
        match self {
            CheckUserLikeFlow::CheckingPost { user, post } => match ev {
                Event::Flag(exists) => {
                    if exists {
                        (CheckUserLikeFlow::CheckingLike { post }, Action::Run(Query::LikeExists { user, post }))
                    } else {
                        (CheckUserLikeFlow::Finished, fail(NOT_FOUND, "Post not found"))
                    }
                },
                Event::Failed(m) => (CheckUserLikeFlow::Finished, fail_owned(INTERNAL_SERVER_ERROR, m)),
                _ => (CheckUserLikeFlow::Finished, fail_unexpected()),
            },
            CheckUserLikeFlow::CheckingLike { post } => match ev {
                Event::Flag(liked) => (CheckUserLikeFlow::Finished, succeed(Body::LikeStatus { post_id: post, liked })),
                Event::Failed(m) => (CheckUserLikeFlow::Finished, fail_owned(INTERNAL_SERVER_ERROR, m)),
                _ => (CheckUserLikeFlow::Finished, fail_unexpected()),
            },
            CheckUserLikeFlow::Finished => (CheckUserLikeFlow::Finished, fail_unexpected()),
        }
    }
}

/// Starts the question whether the caller likes `post`. A rejected token
/// ends it with the token check's status and a subject that is no
/// identifier with 400; otherwise the post's existence is checked first.
pub fn check_user_like(auth: Result<Claims, u16>, post: u128) -> (r: (CheckUserLikeFlow, Action))
    ensures
        auth matches Err(status) ==> r.0 is Finished && flow::fails_with(r.1, status, "Unauthorized"@),
        auth matches Ok(c) ==> match ids::uuid_parse(c.sub@) {
            None => r.0 is Finished && flow::fails_with(r.1, BAD_REQUEST, "Invalid user ID format"@),
            Some(user) => r.0 == (CheckUserLikeFlow::CheckingPost { user, post }) && r.1 == Action::Run(Query::PostExists(post)),
        },
{
    let claims = match auth {
        Ok(c) => c,
        Err(status) => return (CheckUserLikeFlow::Finished, fail(status, "Unauthorized")),
    };
    match subject_id(&claims) {
        Some(user) => (CheckUserLikeFlow::CheckingPost { user, post }, Action::Run(Query::PostExists(post))),
        None => (CheckUserLikeFlow::Finished, fail(BAD_REQUEST, "Invalid user ID format")),
    }
}

} // verus!

//! Comments: writing, reading and deleting them.
use crate::models::comment_model::PostComment;
use crate::services::flow;
use crate::services::flow::{
    fail, fail_owned, fail_unexpected, succeed_with_message, Action, CacheOp, Event, Query,
    BAD_REQUEST, INTERNAL_SERVER_ERROR, NOT_FOUND,
};
use crate::services::read_flow;
use crate::services::read_flow::{key_number, start_listing, ListFlow, Listing};
use crate::services::user_service::subject_id;
use crate::utils::cache::keys;
use crate::utils::ids;
use crate::utils::jwt::Claims;
use crate::utils::pagination;
use crate::utils::pagination::PaginationParams;
use vstd::prelude::*;
use vstd::string::*;

verus! {

/// The cache removals after the comments of `post` changed: the pattern
/// `comments:<id>:*` and the cached post.
pub open spec fn comment_invalidations(ops: Seq<CacheOp>, post: u128) -> bool {
    &&& ops.len() == 2
    &&& ops[0] matches CacheOp::InvalidatePattern(p) && p@ == keys::id_pattern("comments:"@, post)
    &&& ops[1] matches CacheOp::Delete(k) && k@ == keys::id_key("post:"@, post)
}

fn comment_ops(post: u128) -> (ops: Vec<CacheOp>)
    ensures
        comment_invalidations(ops@, post),
{
    let mut ops: Vec<CacheOp> = Vec::new();
    ops.push(CacheOp::InvalidatePattern(crate::utils::cache::keys::comments_pattern(post)));
    ops.push(CacheOp::Delete(crate::utils::cache::keys::post(post)));
    ops
}

/// Where a new comment stands.
pub enum PostCommentFlow {
    /// Asked whether the post exists.
    CheckingPost { user: u128, post: u128, body: String },
    /// Asked to insert the comment.
    Inserting { post: u128 },
    /// Asked to remove stale cache entries.
    Invalidating,
    /// Replied.
    Finished,
}

impl PostCommentFlow {
    /// Takes the answer to the last action. A missing post ends the request
    /// with 404; otherwise the comment is stored, the post's comment cache
    /// entries and cached post are removed, and the request succeeds.
    pub fn resume(self, ev: Event) -> (r: (PostCommentFlow, Action))
        requires
            !(self is Finished),
        ensures
            match self {
                PostCommentFlow::CheckingPost { user, post, body } => match ev {
                    Event::Flag(false) => r.0 is Finished && flow::fails_with(r.1, NOT_FOUND, "Post not found"@),
                    Event::Flag(true) => r.0 == (PostCommentFlow::Inserting { post }) && r.1 == Action::Run(Query::InsertComment { post, user, body }),
                    Event::Failed(_) => r.0 is Finished && flow::fails_as_storage(r.1, ev),
                    _ => r.0 is Finished && flow::fails_unexpectedly(r.1),
                },
                PostCommentFlow::Inserting { post } => match ev {
                    Event::Done => {
                        &&& r.0 is Invalidating
                        &&& r.1 matches Action::Invalidate(ops)
                        &&& comment_invalidations(ops@, post)
                    },
                    Event::Failed(_) => r.0 is Finished && flow::fails_as_storage(r.1, ev),
                    _ => r.0 is Finished && flow::fails_unexpectedly(r.1),
                },
                PostCommentFlow::Invalidating => r.0 is Finished && flow::succeeds_with_message(r.1, "Comment posted successfully"@),
                PostCommentFlow::Finished => true,
            },
    {
        match self {
            PostCommentFlow::CheckingPost { user, post, body } => match ev {
                Event::Flag(exists) => {
                    if exists {
                        (PostCommentFlow::Inserting { post }, Action::Run(Query::InsertComment { post, user, body }))
                    } else {
                        (PostCommentFlow::Finished, fail(NOT_FOUND, "Post not found"))
                    }
                },
                Event::Failed(m) => (PostCommentFlow::Finished, fail_owned(INTERNAL_SERVER_ERROR, m)),
                _ => (PostCommentFlow::Finished, fail_unexpected()),
            },
            PostCommentFlow::Inserting { post } => match ev {
                Event::Done => (PostCommentFlow::Invalidating, Action::Invalidate(comment_ops(post))),
                Event::Failed(m) => (PostCommentFlow::Finished, fail_owned(INTERNAL_SERVER_ERROR, m)),
                _ => (PostCommentFlow::Finished, fail_unexpected()),
            },
            PostCommentFlow::Invalidating => (PostCommentFlow::Finished, succeed_with_message("Comment posted successfully")),
            PostCommentFlow::Finished => (PostCommentFlow::Finished, fail_unexpected()),
        }
    }
}

/// Starts the caller's comment on `post`. A rejected token ends it with the
/// token check's status and a subject that is no identifier with 400;
/// otherwise the post's existence is checked first.
pub fn post_comment(auth: Result<Claims, u16>, post: u128, payload: PostComment) -> (r: (PostCommentFlow, Action))
    ensures
        auth matches Err(status) ==> r.0 is Finished && flow::fails_with(r.1, status, "Unauthorized"@),
        auth matches Ok(c) ==> match ids::uuid_parse(c.sub@) {
            None => r.0 is Finished && flow::fails_with(r.1, BAD_REQUEST, "Invalid user ID format"@),
            Some(user) => r.0 == (PostCommentFlow::CheckingPost { user, post, body: payload.body })
                && r.1 == Action::Run(Query::PostExists(post)),
        },
{
    let claims = match auth {
        Ok(c) => c,
        Err(status) => return (PostCommentFlow::Finished, fail(status, "Unauthorized")),
    };
    match subject_id(&claims) {
        Some(user) => (PostCommentFlow::CheckingPost { user, post, body: payload.body }, Action::Run(Query::PostExists(post))),
        None => (PostCommentFlow::Finished, fail(BAD_REQUEST, "Invalid user ID format")),
    }
}

/// Starts the listing of the comments on `post` with their total, page and
/// size as the request gives them, cached for 120 seconds under
/// `comments:post:<id>:p<page>:l<limit>` with page and size taken as
/// `u32`.
pub fn get_comments(post: u128, pagination: PaginationParams, auth: Result<Claims, u16>) -> (r: (ListFlow, Action))
    ensures
        auth matches Err(status) ==> r.0 is Finished && flow::fails_with(r.1, status, "Unauthorized"@),
        auth is Ok ==> read_flow::starts_listing(
            r,
            post,
            pagination::requested_page(pagination),
            pagination::requested_limit(pagination),
            keys::page_key("comments:post:"@, post, (pagination::requested_page(pagination) as u32) as int, (pagination::requested_limit(pagination) as u32) as int),
            120,
            None,
            Listing::CommentsOn,
            false,
            false,
        ),
{
    match auth {
        Ok(_) => {},
        Err(status) => return (ListFlow::Finished, fail(status, "Unauthorized")),
    }
    let (page, limit) = pagination.requested();
    let key = crate::utils::cache::keys::post_comments(post, key_number(page), key_number(limit));
    start_listing(post, page, limit, key, 120, None, Listing::CommentsOn, false, false)
}

/// Where the deletion of a comment stands.
pub enum DeleteCommentFlow {
    /// Asked to delete the comment if the caller wrote it on the post.
    Deleting { post: u128 },
    /// Asked to remove stale cache entries.
    Invalidating,
    /// Replied.
    Finished,
}

impl DeleteCommentFlow {
    /// Takes the answer to the last action. When nothing was deleted the
    /// request ends with 404; otherwise the post's comment cache entries and
    /// cached post are removed and the request succeeds.
    pub fn resume(self, ev: Event) -> (r: (DeleteCommentFlow, Action))
        requires
            !(self is Finished),
        ensures
            match self {
                DeleteCommentFlow::Deleting { post } => match ev {
                    Event::Rows(n) => if n == 0 {
                        r.0 is Finished && flow::fails_with(
                            r.1,
                            NOT_FOUND,
                            "Comment not found or you don't have permission to delete it"@,
                        )
                    } else {
                        &&& r.0 is Invalidating
                        &&& r.1 matches Action::Invalidate(ops)
                        &&& comment_invalidations(ops@, post)
                    },
                    Event::Failed(_) => r.0 is Finished && flow::fails_as_storage(r.1, ev),
                    _ => r.0 is Finished && flow::fails_unexpectedly(r.1),
                },
                DeleteCommentFlow::Invalidating => r.0 is Finished && flow::succeeds_with_message(r.1, "Comment deleted successfully"@),
                DeleteCommentFlow::Finished => true,
            },
    {
        match self {
            DeleteCommentFlow::Deleting { post } => match ev {
                Event::Rows(n) => {
                    if n == 0 {
                        (
                            DeleteCommentFlow::Finished,
                            fail(NOT_FOUND, "Comment not found or you don't have permission to delete it"),
                        )
                    } else {
                        (DeleteCommentFlow::Invalidating, Action::Invalidate(comment_ops(post)))
                    }
                },
                Event::Failed(m) => (DeleteCommentFlow::Finished, fail_owned(INTERNAL_SERVER_ERROR, m)),
                _ => (DeleteCommentFlow::Finished, fail_unexpected()),
            },
            DeleteCommentFlow::Invalidating => (DeleteCommentFlow::Finished, succeed_with_message("Comment deleted successfully")),
            DeleteCommentFlow::Finished => (DeleteCommentFlow::Finished, fail_unexpected()),
        }
    }
}

/// Starts the deletion of comment `comment` on `post` by the caller; only
/// a comment the caller wrote on that post is deleted. A rejected token
/// ends it with the token check's status and a subject that is no
/// identifier with 400.
pub fn delete_comment(auth: Result<Claims, u16>, post: u128, comment: u128) -> (r: (DeleteCommentFlow, Action))
    ensures
        auth matches Err(status) ==> r.0 is Finished && flow::fails_with(r.1, status, "Unauthorized"@),
        auth matches Ok(c) ==> match ids::uuid_parse(c.sub@) {
            None => r.0 is Finished && flow::fails_with(r.1, BAD_REQUEST, "Invalid user ID"@),
            Some(user) => r.0 == (DeleteCommentFlow::Deleting { post }) && r.1 == Action::Run(
                Query::DeleteComment { id: comment, user, post },
            ),
        },
{
    let claims = match auth {
        Ok(c) => c,
        Err(status) => return (DeleteCommentFlow::Finished, fail(status, "Unauthorized")),
    };
    match subject_id(&claims) {
        Some(user) => (DeleteCommentFlow::Deleting { post }, Action::Run(Query::DeleteComment { id: comment, user, post })),
        None => (DeleteCommentFlow::Finished, fail(BAD_REQUEST, "Invalid user ID")),
    }
}

} // verus!

//! Posts: publishing, editing, deleting and reading them.
use crate::models::post_model::{CreatePostInput, Post, UpdatePost};
use crate::services::flow;
use crate::services::flow::{
    fail, fail_owned, fail_unexpected, succeed, Action, Body, CacheOp, Event, Query,
    BAD_REQUEST, FORBIDDEN, INTERNAL_SERVER_ERROR, NOT_FOUND,
};
use crate::services::read_flow;
use crate::services::read_flow::{
    key_number, start_listing, start_lookup, ItemFlow, ListFlow, Listing, Lookup,
};
use crate::services::user_service::subject_id;
use crate::utils::cache;
use crate::utils::cache::keys;
use crate::utils::ids;
use crate::utils::ids::uuid_to_text;
use crate::utils::jwt::Claims;
use crate::utils::pagination;
use crate::utils::pagination::PaginationParams;
use vstd::prelude::*;
use vstd::string::*;

verus! {

/// The cache removals after account `user` published a post: its cached
/// post pages and its own cached feed pages.
pub open spec fn post_creation_invalidations(ops: Seq<CacheOp>, user: u128) -> bool {
    &&& ops.len() == 2
    &&& ops[0] matches CacheOp::InvalidatePattern(p) && p@ == keys::id_pattern("user:posts:"@, user)
    &&& ops[1] matches CacheOp::InvalidatePattern(p) && p@ == keys::id_pattern("feed:"@, user)
}

/// The cache removals after post `post` of account `author` changed or
/// went away: the cached post, the author's cached post pages, and every
/// cached feed page.
pub open spec fn post_change_invalidations(ops: Seq<CacheOp>, post: u128, author: u128) -> bool {
    &&& ops.len() == 3
    &&& ops[0] matches CacheOp::Delete(k) && k@ == keys::id_key("post:"@, post)
    &&& ops[1] matches CacheOp::InvalidatePattern(p) && p@ == keys::id_pattern("user:posts:"@, author)
    &&& ops[2] matches CacheOp::InvalidatePattern(p) && p@ == "feed:*:*"@
}

fn post_change_ops(post: u128, author: u128) -> (ops: Vec<CacheOp>)
    ensures
        post_change_invalidations(ops@, post, author),
{
    let mut ops: Vec<CacheOp> = Vec::new();
    ops.push(CacheOp::Delete(crate::utils::cache::keys::post(post)));
    ops.push(CacheOp::InvalidatePattern(crate::utils::cache::keys::user_posts_pattern(author)));
    ops.push(CacheOp::InvalidatePattern(crate::utils::cache::keys::all_feeds_pattern()));
    ops
}

/// Where the publication of a post stands.
pub enum CreatePostFlow {
    /// Asked to insert the post of account `user`.
    Inserting { user: u128 },
    /// Asked to remove stale cache entries; `post` is the new post.
    Invalidating { post: Post },
    /// Replied.
    Finished,
}

impl CreatePostFlow {
    /// Whether `f` and `a` are how a publication can start: replied at
    /// once, or asking to insert the post.
    pub open spec fn opens(f: CreatePostFlow, a: Action) -> bool {
        match f {
            CreatePostFlow::Finished => a is Finish,
            CreatePostFlow::Inserting { user } => a matches Action::Run(Query::InsertPost { user: u, .. }) && u == user,
            _ => false,
        }
    }

    /// What answering `ev` leads to: the next state and action `r`.
    pub open spec fn steps_to(self, ev: Event, r: (CreatePostFlow, Action)) -> bool {
        match self {
            CreatePostFlow::Inserting { user } => match ev {
                Event::Post(p) => {
                    &&& r.0 == (CreatePostFlow::Invalidating { post: p })
                    &&& r.1 matches Action::Invalidate(ops)
                    &&& post_creation_invalidations(ops@, user)
                },
                Event::Failed(_) => r.0 is Finished && flow::fails_as_storage(r.1, ev),
                _ => r.0 is Finished && flow::fails_unexpectedly(r.1),
            },
            CreatePostFlow::Invalidating { post } => r.0 is Finished && flow::succeeds_with(
                r.1,
                Body::PostEnvelope(post),
            ),
            CreatePostFlow::Finished => true,
        }
    }

    /// Takes the answer to the last action. Once the post is stored, the
    /// author's cached post pages and feed pages are removed and the reply
    /// carries the post.
    pub fn resume(self, ev: Event) -> (r: (CreatePostFlow, Action))
        requires
            !(self is Finished),
        ensures
            self.steps_to(ev, r),
    {
        match self {
            CreatePostFlow::Inserting { user } => match ev {
                Event::Post(p) => {
                    let mut ops: Vec<CacheOp> = Vec::new();
                    ops.push(CacheOp::InvalidatePattern(crate::utils::cache::keys::user_posts_pattern(user)));
                    ops.push(CacheOp::InvalidatePattern(crate::utils::cache::keys::feed_pattern(user)));
                    (CreatePostFlow::Invalidating { post: p }, Action::Invalidate(ops))
                },
                Event::Failed(m) => (CreatePostFlow::Finished, fail_owned(INTERNAL_SERVER_ERROR, m)),
                _ => (CreatePostFlow::Finished, fail_unexpected()),
            },
            CreatePostFlow::Invalidating { post } => (
                CreatePostFlow::Finished,
                succeed(Body::PostEnvelope(post)),
            ),
            CreatePostFlow::Finished => (CreatePostFlow::Finished, fail_unexpected()),
        }
    }
}

/// Starts the publication of a post by the caller. A missing title or body
/// ends it with 400 before the token is looked at; then a rejected token
/// ends it with the token check's status and a subject that is no
/// identifier with 400.
pub fn create_post(auth: Result<Claims, u16>, body: CreatePostInput) -> (r: (CreatePostFlow, Action))
    ensures
        CreatePostFlow::opens(r.0, r.1),
        (body.title@.len() == 0 || body.body@.len() == 0) ==> r.0 is Finished && flow::fails_with(
            r.1,
            BAD_REQUEST,
            "Title and body are required"@,
        ),
        (body.title@.len() > 0 && body.body@.len() > 0) ==> match auth {
            Err(status) => r.0 is Finished && flow::fails_with(r.1, status, "Unauthorized access"@),
            Ok(c) => match ids::uuid_parse(c.sub@) {
                None => r.0 is Finished && flow::fails_with(r.1, BAD_REQUEST, "Invalid user ID format"@),
                Some(user) => r.0 == (CreatePostFlow::Inserting { user }) && r.1 == Action::Run(
                    Query::InsertPost { title: body.title, body: body.body, user },
                ),
            },
        },
{
    if body.title.as_str().is_empty() || body.body.as_str().is_empty() {
        return (CreatePostFlow::Finished, fail(BAD_REQUEST, "Title and body are required"));
    }
    let claims = match auth {
        Ok(c) => c,
        Err(status) => return (CreatePostFlow::Finished, fail(status, "Unauthorized access")),
    };
    let user = match subject_id(&claims) {
        Some(id) => id,
        None => return (CreatePostFlow::Finished, fail(BAD_REQUEST, "Invalid user ID format")),
    };
    (
        CreatePostFlow::Inserting { user },
        Action::Run(Query::InsertPost { title: body.title, body: body.body, user }),
    )
}

/// Where an edit of a post stands.
pub enum UpdatePostFlow {
    /// Asked for the post, to check who wrote it.
    Finding { user: u128, target: u128, payload: UpdatePost },
    /// Asked to apply the changes; the caller wrote the post.
    Updating { target: u128 },
    /// Asked to remove stale cache entries; `post` is the edited post.
    Invalidating { post: Post },
    /// Replied.
    Finished,
}

impl UpdatePostFlow {
    /// Takes the answer to the last action. A missing post ends the request
    /// with 404 and a post written by someone else with 403; the caller's
    /// own post is changed, its cache entries (the post, its author's post
    /// pages, every feed page) are removed, and the reply carries it.
    pub fn resume(self, ev: Event) -> (r: (UpdatePostFlow, Action))
        requires
            !(self is Finished),
        ensures
            match self {
                UpdatePostFlow::Finding { user, target, payload } => match ev {
                    Event::MaybePost(None) => r.0 is Finished && flow::fails_with(r.1, NOT_FOUND, "Post not found"@),
                    Event::MaybePost(Some(p)) => if p.user_id != user {
                        r.0 is Finished && flow::fails_with(r.1, FORBIDDEN, "Unauthorized to update this post"@)
                    } else {
                        r.0 == (UpdatePostFlow::Updating { target }) && r.1 == Action::Run(
                            Query::UpdatePost { id: target, title: payload.title, body: payload.body },
                        )
                    },
                    Event::Failed(_) => r.0 is Finished && flow::fails_as_storage(r.1, ev),
                    _ => r.0 is Finished && flow::fails_unexpectedly(r.1),
                },
                UpdatePostFlow::Updating { target } => match ev {
                    Event::Post(p) => {
                        &&& r.0 == (UpdatePostFlow::Invalidating { post: p })
                        &&& r.1 matches Action::Invalidate(ops)
                        &&& post_change_invalidations(ops@, target, p.user_id)
                    },
                    Event::Failed(_) => r.0 is Finished && flow::fails_as_storage(r.1, ev),
                    _ => r.0 is Finished && flow::fails_unexpectedly(r.1),
                },
                UpdatePostFlow::Invalidating { post } => r.0 is Finished && flow::succeeds_with(
                    r.1,
                    Body::PostEnvelope(post),
                ),
                UpdatePostFlow::Finished => true,
            },
    {
        match self {
            UpdatePostFlow::Finding { user, target, payload } => match ev {
                Event::MaybePost(found) => match found {
                    None => (UpdatePostFlow::Finished, fail(NOT_FOUND, "Post not found")),
                    Some(p) => {
                        if p.user_id != user {
                            (UpdatePostFlow::Finished, fail(FORBIDDEN, "Unauthorized to update this post"))
                        } else {
                            (
                                UpdatePostFlow::Updating { target },
                                Action::Run(Query::UpdatePost { id: target, title: payload.title, body: payload.body }),
                            )
                        }
                    },
                },
                Event::Failed(m) => (UpdatePostFlow::Finished, fail_owned(INTERNAL_SERVER_ERROR, m)),
                _ => (UpdatePostFlow::Finished, fail_unexpected()),
            },
            UpdatePostFlow::Updating { target } => match ev {
                Event::Post(p) => {
                    let ops = post_change_ops(target, p.user_id);
                    (UpdatePostFlow::Invalidating { post: p }, Action::Invalidate(ops))
                },
                Event::Failed(m) => (UpdatePostFlow::Finished, fail_owned(INTERNAL_SERVER_ERROR, m)),
                _ => (UpdatePostFlow::Finished, fail_unexpected()),
            },
            UpdatePostFlow::Invalidating { post } => (
                UpdatePostFlow::Finished,
                succeed(Body::PostEnvelope(post)),
            ),
            UpdatePostFlow::Finished => (UpdatePostFlow::Finished, fail_unexpected()),
        }
    }
}

/// Starts an edit of post `target` by the caller. A rejected token ends it
/// with the token check's status, a subject that is no identifier with 400,
/// and so does a request that changes nothing; otherwise the post is
/// fetched to check who wrote it.
pub fn update_post(auth: Result<Claims, u16>, target: u128, payload: UpdatePost) -> (r: (UpdatePostFlow, Action))
    ensures
        auth matches Err(status) ==> r.0 is Finished && flow::fails_with(r.1, status, "Unauthorized"@),
        auth matches Ok(c) ==> match ids::uuid_parse(c.sub@) {
            None => r.0 is Finished && flow::fails_with(r.1, BAD_REQUEST, "Invalid user ID"@),
            Some(user) => if payload.title is None && payload.body is None {
                r.0 is Finished && flow::fails_with(r.1, BAD_REQUEST, "No fields provided for update"@)
            } else {
                r.0 == (UpdatePostFlow::Finding { user, target, payload }) && r.1 == Action::Run(Query::PostById(target))
            },
        },
{
    let claims = match auth {
        Ok(c) => c,
        Err(status) => return (UpdatePostFlow::Finished, fail(status, "Unauthorized")),
    };
    let user = match subject_id(&claims) {
        Some(id) => id,
        None => return (UpdatePostFlow::Finished, fail(BAD_REQUEST, "Invalid user ID")),
    };
    if payload.title.is_none() && payload.body.is_none() {
        return (UpdatePostFlow::Finished, fail(BAD_REQUEST, "No fields provided for update"));
    }
    (UpdatePostFlow::Finding { user, target, payload }, Action::Run(Query::PostById(target)))
}

/// Where the deletion of a post stands.
pub enum DeletePostFlow {
    /// Asked for the post, to check who wrote it; `subject` is the token's
    /// subject.
    Finding { subject: String, target: u128 },
    /// Asked to open the transaction; `author` wrote the post.
    Beginning { target: u128, author: u128 },
    /// Asked to delete the post's comments.
    DeletingComments { target: u128, author: u128 },
    /// Asked to delete the post's likes.
    DeletingLikes { target: u128, author: u128, comments: u64 },
    /// Asked to delete the post row.
    DeletingPost { target: u128, author: u128, comments: u64, likes: u64 },
    /// Asked to commit.
    Committing { target: u128, author: u128, comments: u64, likes: u64 },
    /// Asked to remove stale cache entries.
    Invalidating { comments: u64, likes: u64 },
    /// Replied.
    Finished,
}

impl DeletePostFlow {
    /// Takes the answer to the last action. A missing post ends the request
    /// with 404, and a post whose author's identifier text differs from the
    /// token's subject with 403. Otherwise, in one transaction, the post's
    /// comments, its likes and the post go, the transaction commits, the
    /// post's cache entries are removed, and the reply counts the removed
    /// comments and likes.
    pub fn resume(self, ev: Event) -> (r: (DeletePostFlow, Action))
        requires
            !(self is Finished),
        ensures
            match self {
                DeletePostFlow::Finding { subject, target } => match ev {
                    Event::MaybePost(None) => r.0 is Finished && flow::fails_with(r.1, NOT_FOUND, "Post not found"@),
                    Event::MaybePost(Some(p)) => if ids::uuid_text(p.user_id) != subject@ {
                        r.0 is Finished && flow::fails_with(r.1, FORBIDDEN, "Unauthorized to delete this post"@)
                    } else {
                        r.0 == (DeletePostFlow::Beginning { target, author: p.user_id }) && r.1 == Action::BeginTransaction
                    },
                    Event::Failed(_) => r.0 is Finished && flow::fails_as_storage(r.1, ev),
                    _ => r.0 is Finished && flow::fails_unexpectedly(r.1),
                },
                DeletePostFlow::Beginning { target, author } => match ev {
                    Event::Done => r.0 == (DeletePostFlow::DeletingComments { target, author })
                        && r.1 == Action::Run(Query::DeleteCommentsOnPost(target)),
                    Event::Failed(_) => r.0 is Finished && flow::fails_as_storage(r.1, ev),
                    _ => r.0 is Finished && flow::fails_unexpectedly(r.1),
                },
                DeletePostFlow::DeletingComments { target, author } => match ev {
                    Event::Rows(n) => r.0 == (DeletePostFlow::DeletingLikes { target, author, comments: n })
                        && r.1 == Action::Run(Query::DeleteLikesOnPost(target)),
                    Event::Failed(_) => r.0 is Finished && flow::fails_as_storage(r.1, ev),
                    _ => r.0 is Finished && flow::fails_unexpectedly(r.1),
                },
                DeletePostFlow::DeletingLikes { target, author, comments } => match ev {
                    Event::Rows(n) => r.0 == (DeletePostFlow::DeletingPost { target, author, comments, likes: n })
                        && r.1 == Action::Run(Query::DeletePostRow(target)),
                    Event::Failed(_) => r.0 is Finished && flow::fails_as_storage(r.1, ev),
                    _ => r.0 is Finished && flow::fails_unexpectedly(r.1),
                },
                DeletePostFlow::DeletingPost { target, author, comments, likes } => match ev {
                    Event::Done => r.0 == (DeletePostFlow::Committing { target, author, comments, likes })
                        && r.1 == Action::CommitTransaction,
                    Event::Failed(_) => r.0 is Finished && flow::fails_as_storage(r.1, ev),
                    _ => r.0 is Finished && flow::fails_unexpectedly(r.1),
                },
                DeletePostFlow::Committing { target, author, comments, likes } => match ev {
                    Event::Done => {
                        &&& r.0 == (DeletePostFlow::Invalidating { comments, likes })
                        &&& r.1 matches Action::Invalidate(ops)
                        &&& post_change_invalidations(ops@, target, author)
                    },
                    Event::Failed(_) => r.0 is Finished && flow::fails_as_storage(r.1, ev),
                    _ => r.0 is Finished && flow::fails_unexpectedly(r.1),
                },
                DeletePostFlow::Invalidating { comments, likes } => r.0 is Finished && flow::succeeds_with(
                    r.1,
                    Body::PostDeleted { comments_deleted: comments, likes_deleted: likes },
                ),
                DeletePostFlow::Finished => true,
            },
    {
        match self {
            DeletePostFlow::Finding { subject, target } => match ev {
                Event::MaybePost(found) => match found {
                    None => (DeletePostFlow::Finished, fail(NOT_FOUND, "Post not found")),
                    Some(p) => {
                        let author_text = uuid_to_text(p.user_id);
                        if author_text != subject {
                            (DeletePostFlow::Finished, fail(FORBIDDEN, "Unauthorized to delete this post"))
                        } else {
                            (DeletePostFlow::Beginning { target, author: p.user_id }, Action::BeginTransaction)
                        }
                    },
                },
                Event::Failed(m) => (DeletePostFlow::Finished, fail_owned(INTERNAL_SERVER_ERROR, m)),
                _ => (DeletePostFlow::Finished, fail_unexpected()),
            },
            DeletePostFlow::Beginning { target, author } => match ev {
                Event::Done => (
                    DeletePostFlow::DeletingComments { target, author },
                    Action::Run(Query::DeleteCommentsOnPost(target)),
                ),
                Event::Failed(m) => (DeletePostFlow::Finished, fail_owned(INTERNAL_SERVER_ERROR, m)),
                _ => (DeletePostFlow::Finished, fail_unexpected()),
            },
            DeletePostFlow::DeletingComments { target, author } => match ev {
                Event::Rows(n) => (
                    DeletePostFlow::DeletingLikes { target, author, comments: n },
                    Action::Run(Query::DeleteLikesOnPost(target)),
                ),
                Event::Failed(m) => (DeletePostFlow::Finished, fail_owned(INTERNAL_SERVER_ERROR, m)),
                _ => (DeletePostFlow::Finished, fail_unexpected()),
            },
            DeletePostFlow::DeletingLikes { target, author, comments } => match ev {
                Event::Rows(n) => (
                    DeletePostFlow::DeletingPost { target, author, comments, likes: n },
                    Action::Run(Query::DeletePostRow(target)),
                ),
                Event::Failed(m) => (DeletePostFlow::Finished, fail_owned(INTERNAL_SERVER_ERROR, m)),
                _ => (DeletePostFlow::Finished, fail_unexpected()),
            },
            DeletePostFlow::DeletingPost { target, author, comments, likes } => match ev {
                Event::Done => (
                    DeletePostFlow::Committing { target, author, comments, likes },
                    Action::CommitTransaction,
                ),
                Event::Failed(m) => (DeletePostFlow::Finished, fail_owned(INTERNAL_SERVER_ERROR, m)),
                _ => (DeletePostFlow::Finished, fail_unexpected()),
            },
            DeletePostFlow::Committing { target, author, comments, likes } => match ev {
                Event::Done => (
                    DeletePostFlow::Invalidating { comments, likes },
                    Action::Invalidate(post_change_ops(target, author)),
                ),
                Event::Failed(m) => (DeletePostFlow::Finished, fail_owned(INTERNAL_SERVER_ERROR, m)),
                _ => (DeletePostFlow::Finished, fail_unexpected()),
            },
            DeletePostFlow::Invalidating { comments, likes } => (
                DeletePostFlow::Finished,
                succeed(Body::PostDeleted { comments_deleted: comments, likes_deleted: likes }),
            ),
            DeletePostFlow::Finished => (DeletePostFlow::Finished, fail_unexpected()),
        }
    }
}

/// Starts the deletion of post `target` by the caller. A rejected token
/// ends it with the token check's status; otherwise the post is fetched to
/// check who wrote it.
pub fn delete_post(auth: Result<Claims, u16>, target: u128) -> (r: (DeletePostFlow, Action))
    ensures
        auth matches Err(status) ==> r.0 is Finished && flow::fails_with(r.1, status, "Unauthorized"@),
        auth matches Ok(c) ==> r.0 == (DeletePostFlow::Finding { subject: c.sub, target }) && r.1
            == Action::Run(Query::PostById(target)),
{
    let claims = match auth {
        Ok(c) => c,
        Err(status) => return (DeletePostFlow::Finished, fail(status, "Unauthorized")),
    };
    (DeletePostFlow::Finding { subject: claims.sub, target }, Action::Run(Query::PostById(target)))
}

/// Starts the listing of the caller's posts with their total, page and
/// size as the request gives them, cached for 60 seconds under
/// `user:posts:<id>:p<page>:l<limit>` with page and size taken as `u32`.
pub fn get_my_posts(pagination: PaginationParams, auth: Result<Claims, u16>) -> (r: (ListFlow, Action))
    ensures
        auth matches Err(status) ==> r.0 is Finished && flow::fails_with(r.1, status, "Unauthorized"@),
        auth matches Ok(c) ==> match ids::uuid_parse(c.sub@) {
            None => r.0 is Finished && flow::fails_with(r.1, BAD_REQUEST, "Invalid user ID in token"@),
            Some(id) => read_flow::starts_listing(
                r,
                id,
                pagination::requested_page(pagination),
                pagination::requested_limit(pagination),
                keys::page_key("user:posts:"@, id, (pagination::requested_page(pagination) as u32) as int, (pagination::requested_limit(pagination) as u32) as int),
                60,
                None,
                Listing::PostsBy,
                false,
                false,
            ),
        },
{
    let claims = match auth {
        Ok(c) => c,
        Err(status) => return (ListFlow::Finished, fail(status, "Unauthorized")),
    };
    let id = match subject_id(&claims) {
        Some(id) => id,
        None => return (ListFlow::Finished, fail(BAD_REQUEST, "Invalid user ID in token")),
    };
    let (page, limit) = pagination.requested();
    let key = crate::utils::cache::keys::user_posts(id, key_number(page), key_number(limit));
    start_listing(id, page, limit, key, 60, None, Listing::PostsBy, false, false)
}

/// Starts the listing of the posts of account `target`, as `get_my_posts`
/// does, cached for 120 seconds.
pub fn get_posts_from_user(target: u128, pagination: PaginationParams, auth: Result<Claims, u16>) -> (r: (ListFlow, Action))
    ensures
        auth matches Err(status) ==> r.0 is Finished && flow::fails_with(r.1, status, "Unauthorized"@),
        auth is Ok ==> read_flow::starts_listing(
            r,
            target,
            pagination::requested_page(pagination),
            pagination::requested_limit(pagination),
            keys::page_key("user:posts:"@, target, (pagination::requested_page(pagination) as u32) as int, (pagination::requested_limit(pagination) as u32) as int),
            120,
            None,
            Listing::PostsBy,
            false,
            false,
        ),
{
    match auth {
        Ok(_) => {},
        Err(status) => return (ListFlow::Finished, fail(status, "Unauthorized")),
    }
    let (page, limit) = pagination.requested();
    let key = crate::utils::cache::keys::user_posts(target, key_number(page), key_number(limit));
    start_listing(target, page, limit, key, 120, None, Listing::PostsBy, false, false)
}

/// Starts the lookup of post `target`, cached for 300 seconds under
/// `post:<id>`.
pub fn get_post_by_id(target: u128, auth: Result<Claims, u16>) -> (r: (ItemFlow, Action))
    ensures
        auth matches Err(status) ==> r.0 is Finished && flow::fails_with(r.1, status, "Unauthorized"@),
        auth is Ok ==> read_flow::starts_lookup(r, keys::id_key("post:"@, target), Lookup::PostById(target), "Post not found"@, Some(300)),
{
    match auth {
        Ok(_) => {},
        Err(status) => return (ItemFlow::Finished, fail(status, "Unauthorized")),
    }
    start_lookup(crate::utils::cache::keys::post(target), Lookup::PostById(target), "Post not found", Some(300))
}

/// Starts the caller's feed: posts of the accounts the caller follows,
/// newest first, with their total; cached for 30 seconds under
/// `feed:<id>:p<page>:l<limit>` with page and size taken as `u32`.
pub fn get_feed(pagination: PaginationParams, auth: Result<Claims, u16>) -> (r: (ListFlow, Action))
    ensures
        auth matches Err(status) ==> r.0 is Finished && flow::fails_with(r.1, status, "Unauthorized"@),
        auth matches Ok(c) ==> match ids::uuid_parse(c.sub@) {
            None => r.0 is Finished && flow::fails_with(r.1, BAD_REQUEST, "Invalid user ID"@),
            Some(id) => read_flow::starts_listing(
                r,
                id,
                pagination::requested_page(pagination),
                pagination::requested_limit(pagination),
                keys::page_key("feed:"@, id, (pagination::requested_page(pagination) as u32) as int, (pagination::requested_limit(pagination) as u32) as int),
                30,
                None,
                Listing::FeedOf,
                false,
                false,
            ),
        },
{
    let claims = match auth {
        Ok(c) => c,
        Err(status) => return (ListFlow::Finished, fail(status, "Unauthorized")),
    };
    let id = match subject_id(&claims) {
        Some(id) => id,
        None => return (ListFlow::Finished, fail(BAD_REQUEST, "Invalid user ID")),
    };
    let (page, limit) = pagination.requested();
    let key = crate::utils::cache::keys::feed(id, key_number(page), key_number(limit));
    start_listing(id, page, limit, key, 30, None, Listing::FeedOf, false, false)
}

/// After a post changes or goes away, the removals reach the cached post by
/// its exact key, every cached page of its author's posts, and every cached
/// feed page of every account, whatever page and size each was cached for.
pub proof fn lemma_post_change_clears_post_caches(
    ops: Seq<CacheOp>,
    post: u128,
    author: u128,
    reader: u128,
    page: int,
    limit: int,
)
    requires
        post_change_invalidations(ops, post, author),
    ensures
        ops[0] matches CacheOp::Delete(k) && k@ == keys::id_key("post:"@, post),
        ops[1] matches CacheOp::InvalidatePattern(p) && cache::star_match(p@, keys::page_key("user:posts:"@, author, page, limit)),
        ops[2] matches CacheOp::InvalidatePattern(p) && cache::star_match(p@, keys::page_key("feed:"@, reader, page, limit)),
{
    cache::lemma_pattern_prefixes_have_no_star();
    cache::lemma_id_pattern_covers_pages("user:posts:"@, author, page, limit);
    cache::lemma_all_feeds_pattern_covers_feeds(reader, page, limit);
}

/// After a post is published, the removal patterns reach every cached page
/// of its author's posts and of its author's own feed.
pub proof fn lemma_post_creation_clears_author_pages(ops: Seq<CacheOp>, author: u128, page: int, limit: int)
    requires
        post_creation_invalidations(ops, author),
    ensures
        ops[0] matches CacheOp::InvalidatePattern(p) && cache::star_match(p@, keys::page_key("user:posts:"@, author, page, limit)),
        ops[1] matches CacheOp::InvalidatePattern(p) && cache::star_match(p@, keys::page_key("feed:"@, author, page, limit)),
{
    cache::lemma_pattern_prefixes_have_no_star();
    cache::lemma_id_pattern_covers_pages("user:posts:"@, author, page, limit);
    cache::lemma_id_pattern_covers_pages("feed:"@, author, page, limit);
}

} // verus!

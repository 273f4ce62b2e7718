//! The vocabulary in which request handlers talk to the I/O layer that
//! drives them: what they ask the database, the cache and the token signer
//! to do, what comes back, and how a request ends.
//!
//! Every handler is a state machine. Its start function takes the request's
//! inputs and returns the first state and the first action; `resume` takes
//! the answer to the last action and returns the next state and action. The
//! driver performs each action and feeds back its answer until the action is
//! `Finish`. Queries that follow `BeginTransaction` run in that transaction
//! until `CommitTransaction`; a transaction still open at `Finish` is rolled
//! back.
use crate::models::comment_model::Comment;
use crate::models::like_model::Like;
use crate::models::post_model::Post;
use crate::models::user_model::{User, UserResponse};
use crate::utils::jwt::Claims;
use vstd::prelude::*;
use vstd::string::*;

verus! {

pub const BAD_REQUEST: u16 = 400;

pub const UNAUTHORIZED: u16 = 401;

pub const FORBIDDEN: u16 = 403;

pub const NOT_FOUND: u16 = 404;

pub const CONFLICT: u16 = 409;

pub const INTERNAL_SERVER_ERROR: u16 = 500;

/// A failed request: an HTTP status and, for most handlers, a message.
pub struct ApiError {
    pub status: u16,
    pub message: Option<String>,
}

/// A new account as it is written to the database; the driver adds a fresh
/// identifier and the creation time.
pub struct NewUser {
    pub username: String,
    pub email: String,
    pub name: Option<String>,
    pub password_hash: String,
    pub birthday: Option<i32>,
}

/// Changes to an account; absent fields keep their stored value.
pub struct UserChanges {
    pub id: u128,
    pub username: Option<String>,
    pub email: Option<String>,
    pub name: Option<String>,
    pub password_hash: Option<String>,
    pub birthday: Option<i32>,
}

/// One database statement, with the answer it expects in brackets.
pub enum Query {
    /// Whether an account has this username. [`Flag`]
    UsernameTaken(String),
    /// Whether an account has this email. [`Flag`]
    EmailTaken(String),
    /// Insert an account. [`User`]
    InsertUser(NewUser),
    /// The account with this username. [`MaybeUser`]
    UserByUsername(String),
    /// The account with this identifier. [`MaybeUser`]
    UserById(u128),
    /// Apply changes to an account. [`MaybeUser`]
    UpdateUser(UserChanges),
    /// Whether an account with this identifier exists. [`Flag`]
    UserExists(u128),
    /// Delete the likes on the posts of this account. [`Done`]
    DeleteLikesOnPostsOf(u128),
    /// Delete the comments on the posts of this account. [`Done`]
    DeleteCommentsOnPostsOf(u128),
    /// Delete the posts of this account. [`Done`]
    DeletePostsOf(u128),
    /// Delete the comments this account wrote. [`Done`]
    DeleteCommentsBy(u128),
    /// Delete the likes this account gave. [`Done`]
    DeleteLikesBy(u128),
    /// Delete every follow relation this account is part of. [`Done`]
    DeleteFollowsOf(u128),
    /// Delete the account row. [`Done`]
    DeleteUserRow(u128),
    /// Whether `follower` follows `followed`. [`Flag`]
    IsFollowing { follower: u128, followed: u128 },
    /// Record that `follower` follows `followed`. [`Done`]
    InsertFollow { follower: u128, followed: u128 },
    /// Remove that `follower` follows `followed`. [`Rows`]
    DeleteFollow { follower: u128, followed: u128 },
    /// A window of the accounts that follow `user`. [`Users`]
    FollowersOf { user: u128, limit: i64, offset: i64 },
    /// A window of the accounts `user` follows. [`Users`]
    FollowingOf { user: u128, limit: i64, offset: i64 },
    /// How many accounts follow this one. [`Count`]
    CountFollowers(u128),
    /// How many accounts this one follows. [`Count`]
    CountFollowing(u128),
    /// Insert a post with no likes. [`Post`]
    InsertPost { title: String, body: String, user: u128 },
    /// The post with this identifier. [`MaybePost`]
    PostById(u128),
    /// Apply changes to a post; absent fields stay. [`Post`]
    UpdatePost { id: u128, title: Option<String>, body: Option<String> },
    /// Delete the comments on this post. [`Rows`]
    DeleteCommentsOnPost(u128),
    /// Delete the likes on this post. [`Rows`]
    DeleteLikesOnPost(u128),
    /// Delete the post row. [`Done`]
    DeletePostRow(u128),
    /// A window of this account's posts, newest first. [`Posts`]
    PostsBy { user: u128, limit: i64, offset: i64 },
    /// How many posts this account has. [`Count`]
    CountPostsBy(u128),
    /// A window of the posts of the accounts `user` follows, newest first. [`Posts`]
    FeedOf { user: u128, limit: i64, offset: i64 },
    /// How many posts the accounts `user` follows have. [`Count`]
    CountFeedOf(u128),
    /// Whether `user` likes `post`. [`Flag`]
    LikeExists { user: u128, post: u128 },
    /// Record that `user` likes `post`. [`Like`]
    InsertLike { user: u128, post: u128 },
    /// Add one to the post's like count. [`Done`]
    IncrementLikes(u128),
    /// Remove that `user` likes `post`. [`Rows`]
    DeleteLike { user: u128, post: u128 },
    /// Take one from the post's like count. [`Done`]
    DecrementLikes(u128),
    /// The like count of the post, if the post exists. [`MaybeCount`]
    LikesCountOf(u128),
    /// Whether a post with this identifier exists. [`Flag`]
    PostExists(u128),
    /// Insert a comment. [`Done`]
    InsertComment { post: u128, user: u128, body: String },
    /// A window of the comments on `post`, newest first. [`Comments`]
    CommentsOn { post: u128, limit: i64, offset: i64 },
    /// How many comments the post has. [`Count`]
    CountCommentsOn(u128),
    /// Delete this comment if `user` wrote it on `post`. [`Rows`]
    DeleteComment { id: u128, user: u128, post: u128 },
}

/// A cache removal whose failure is only reported, never fatal.
pub enum CacheOp {
    /// Remove one key.
    Delete(String),
    /// Remove every key the pattern matches.
    InvalidatePattern(String),
}

/// What a cache write stores.
pub enum Stored {
    /// The body of the reply it accompanies.
    Response,
    /// The object `{"count": n}`.
    Count(i64),
}

/// A cache write done just before replying; its failure is only reported.
pub struct CacheStore {
    pub key: String,
    pub ttl_secs: u64,
    pub value: Stored,
}

/// The body of a successful reply.
pub enum Body {
    /// The value the last cache lookup found.
    Cached,
    /// `{"message": ..}`
    Message(String),
    /// An account.
    User(UserResponse),
    /// `{"message": "Login successful", "user": .., "access_token": ..}`
    Login { user: UserResponse, access_token: String },
    /// `{"message": "User updated successfully", "user": ..}`
    UserUpdated(UserResponse),
    /// `{"user": .., "posts": .., "meta": {"total_items", "page", "limit"}}`
    Profile { user: UserResponse, posts: Vec<Post>, total: i64, page: i64, limit: i64 },
    /// `{"followers" or "following": .., "meta": ..}`, led by
    /// `"user": {"id", "username"}` when `owner` is present.
    Follows {
        owner: Option<(u128, String)>,
        followers: bool,
        users: Vec<UserResponse>,
        total: i64,
        page: i64,
        limit: i64,
    },
    /// `{"posts": .., "meta": ..}`
    Posts { posts: Vec<Post>, total: i64, page: i64, limit: i64 },
    /// `{"post": ..}`
    PostEnvelope(Post),
    /// A post.
    Post(Post),
    /// `{"message": "Post deleted successfully", "details": {..}}`
    PostDeleted { comments_deleted: u64, likes_deleted: u64 },
    /// A like.
    Like(Like),
    /// `{"post_id": .., "likes": ..}`
    LikeCount { post_id: u128, likes: i64 },
    /// `{"post_id": .., "liked": ..}`
    LikeStatus { post_id: u128, liked: bool },
    /// `{"comments": .., "meta": ..}`
    Comments { comments: Vec<Comment>, total: i64, page: i64, limit: i64 },
    /// `{"access_token": ..}`
    AccessToken(String),
}

/// How a request ends: its outcome, and the cache writes done before the
/// reply goes out.
pub struct Reply {
    pub outcome: Result<Body, ApiError>,
    pub stores: Vec<CacheStore>,
}

/// What a handler asks its driver to do next.
pub enum Action {
    /// Run one statement.
    Run(Query),
    /// Open a transaction. [`Done`]
    BeginTransaction,
    /// Commit the open transaction. [`Done`]
    CommitTransaction,
    /// Read a cached response. [`CacheHit`, `CacheMiss`]
    LookupCache(String),
    /// Remove cache entries, reporting failures only. [`Done`]
    Invalidate(Vec<CacheOp>),
    /// Sign an access token with these claims. [`Token`]
    IssueToken(Claims),
    /// Reply and stop.
    Finish(Reply),
}

/// The answer to the last action. Any action may instead fail with a
/// message.
pub enum Event {
    Done,
    Flag(bool),
    Rows(u64),
    Count(i64),
    MaybeCount(Option<i64>),
    User(User),
    MaybeUser(Option<User>),
    Users(Vec<User>),
    Post(Post),
    MaybePost(Option<Post>),
    Posts(Vec<Post>),
    Comments(Vec<Comment>),
    Like(Like),
    CacheHit,
    CacheMiss,
    Token(String),
    Failed(String),
}

/// The message of the reply to an answer of the wrong kind.
pub open spec fn unexpected_message() -> Seq<char> {
    "unexpected answer from storage"@
}

/// `a` ends the request with `status` and message `msg`.
pub open spec fn fails_with(a: Action, status: u16, msg: Seq<char>) -> bool {
    &&& a matches Action::Finish(r)
    &&& r.stores@.len() == 0
    &&& r.outcome matches Err(e)
    &&& e.status == status
    &&& e.message matches Some(m)
    &&& m@ == msg
}

/// `a` ends the request unsuccessfully with `status`.
pub open spec fn fails_with_status(a: Action, status: u16) -> bool {
    &&& a matches Action::Finish(r)
    &&& r.stores@.len() == 0
    &&& r.outcome matches Err(e)
    &&& e.status == status
}

/// `a` ends the request with `status` and no message.
pub open spec fn fails_bare(a: Action, status: u16) -> bool {
    &&& a matches Action::Finish(r)
    &&& r.stores@.len() == 0
    &&& r.outcome matches Err(e)
    &&& e.status == status
    &&& e.message is None
}

/// `a` ends the request with 500 and the message of the failure `ev`.
pub open spec fn fails_as_storage(a: Action, ev: Event) -> bool {
    ev matches Event::Failed(m) && fails_with(a, INTERNAL_SERVER_ERROR, m@)
}

/// `a` ends the request because `ev` is not an answer of the kind asked for.
pub open spec fn fails_unexpectedly(a: Action) -> bool {
    fails_with(a, INTERNAL_SERVER_ERROR, unexpected_message())
}

/// `a` ends the request successfully with `body` and no cache writes.
pub open spec fn succeeds_with(a: Action, body: Body) -> bool {
    &&& a matches Action::Finish(r)
    &&& r.stores@.len() == 0
    &&& r.outcome == Ok::<Body, ApiError>(body)
}

/// `a` ends the request successfully with `{"message": msg}`.
pub open spec fn succeeds_with_message(a: Action, msg: Seq<char>) -> bool {
    &&& a matches Action::Finish(r)
    &&& r.stores@.len() == 0
    &&& r.outcome matches Ok(Body::Message(m))
    &&& m@ == msg
}

/// Ends the request with `status` and message `msg`.
pub fn fail(status: u16, msg: &str) -> (a: Action)
    ensures
        fails_with(a, status, msg@),
{
    Action::Finish(
        Reply {
            outcome: Err(ApiError { status, message: Some(String::from_str(msg)) }),
            stores: Vec::new(),
        },
    )
}

/// Ends the request with `status` and the message `msg`.
pub fn fail_owned(status: u16, msg: String) -> (a: Action)
    ensures
        fails_with(a, status, msg@),
{
    Action::Finish(
        Reply { outcome: Err(ApiError { status, message: Some(msg) }), stores: Vec::new() },
    )
}

/// Ends the request with `status` and no message.
pub fn fail_bare(status: u16) -> (a: Action)
    ensures
        fails_bare(a, status),
{
    Action::Finish(Reply { outcome: Err(ApiError { status, message: None }), stores: Vec::new() })
}

/// Ends the request because an answer had the wrong kind.
pub fn fail_unexpected() -> (a: Action)
    ensures
        fails_unexpectedly(a),
{
    fail(INTERNAL_SERVER_ERROR, "unexpected answer from storage")
}

/// Ends the request successfully with `body`.
pub fn succeed(body: Body) -> (a: Action)
    ensures
        succeeds_with(a, body),
{
    Action::Finish(Reply { outcome: Ok(body), stores: Vec::new() })
}

/// Ends the request successfully with `{"message": msg}`.
pub fn succeed_with_message(msg: &str) -> (a: Action)
    ensures
        succeeds_with_message(a, msg@),
{
    succeed(Body::Message(String::from_str(msg)))
}

} // verus!

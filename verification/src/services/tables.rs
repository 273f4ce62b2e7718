//! A model of the account, post, like and follow rows and of the keys the
//! cache holds, of what each statement does to them, and of how the driver
//! may answer a handler's actions against them. The laws that span
//! requests (counts that stay right, a like that an unlike undoes, a follow
//! that an unfollow undoes, a registered account that logs in, a new post
//! that heads its author's first page) are stated over runs of the
//! handlers in this model.
use crate::models::post_model::Post;
use crate::models::user_model::{RegisterUser, User, UserResponse};
use crate::services::flow::{Action, Body, CacheOp, Event, NewUser, Query};
use crate::utils::cache::star_match;
use crate::services::like_service::{LikePostFlow, UnlikePostFlow};
use crate::services::post_service;
use crate::services::post_service::CreatePostFlow;
use crate::services::read_flow;
use crate::services::read_flow::{ListFlow, Listing};
use crate::services::user_service;
use crate::utils::cache::keys;
use crate::services::user_service::{FollowUserFlow, LoginUserFlow, RegisterUserFlow, UnfollowUserFlow};
use crate::utils::password;
use vstd::prelude::*;

verus! {

/// The rows that accounts, likes and follows read and write.
pub struct Tables {
    /// The account rows, keyed by identifier.
    pub accounts: Map<u128, User>,
    /// The `likes_count` column of each post, keyed by the post.
    pub like_counts: Map<u128, int>,
    /// Like rows, as (user, post).
    pub likes: Set<(u128, u128)>,
    /// Follow rows, as (follower, followed).
    pub follows: Set<(u128, u128)>,
    /// The post rows, keyed by identifier; their `likes_count` column is
    /// the one `like_counts` holds.
    pub posts: Map<u128, Post>,
}

/// The database as a request sees it: the committed rows, and the rows of
/// its open transaction, if it has one.
pub struct Store {
    pub committed: Tables,
    pub pending: Option<Tables>,
    /// The keys the cache holds.
    pub cache: Set<Seq<char>>,
}

/// The rows the next statement reads and writes.
pub open spec fn current(s: Store) -> Tables {
    match s.pending {
        Some(t) => t,
        None => s.committed,
    }
}

/// `s` with the rows the next statement works on replaced by `t`.
pub open spec fn with_current(s: Store, t: Tables) -> Store {
    match s.pending {
        Some(_) => Store { committed: s.committed, pending: Some(t), cache: s.cache },
        None => Store { committed: t, pending: None, cache: s.cache },
    }
}

/// The like rows of post `post`.
pub open spec fn likes_on(t: Tables, post: u128) -> Set<(u128, u128)> {
    t.likes.filter(|l: (u128, u128)| l.1 == post)
}

/// Every post's `likes_count` is the number of its like rows.
pub open spec fn counts_agree(t: Tables) -> bool {
    &&& t.likes.finite()
    &&& forall|p: u128| #[trigger] t.like_counts.contains_key(p) ==> t.like_counts[p] == likes_on(t, p).len()
}

/// `t` with post `post`'s `likes_count` moved by `delta`; a missing post
/// stays missing.
pub open spec fn count_moved(t: Tables, post: u128, delta: int) -> Map<u128, int> {
    if t.like_counts.contains_key(post) {
        t.like_counts.insert(post, t.like_counts[post] + delta)
    } else {
        t.like_counts
    }
}

/// Whether some account has username `name`.
pub open spec fn username_taken(t: Tables, name: Seq<char>) -> bool {
    exists|id: u128| #[trigger] t.accounts.contains_key(id) && t.accounts[id].username@ == name
}

/// Whether some account has email `email`.
pub open spec fn email_taken(t: Tables, email: Seq<char>) -> bool {
    exists|id: u128| #[trigger] t.accounts.contains_key(id) && t.accounts[id].email@ == email
}

/// The identifiers of the posts of account `user`.
pub open spec fn posts_of(t: Tables, user: u128) -> Set<u128> {
    t.posts.dom().filter(|id: u128| t.posts[id].user_id == user)
}

/// Whether `p` is the row that inserting a post of `user` with `title` and
/// `body` into `t` writes: an identifier no post has, the given fields, no
/// likes, and a creation time after that of every post in `t` (the
/// database clock moves forward).
pub open spec fn new_post_row(t: Tables, title: String, body: String, user: u128, p: Post) -> bool {
    &&& !t.posts.contains_key(p.id)
    &&& p.title == title
    &&& p.body == body
    &&& p.user_id == user
    &&& p.likes_count == 0
    &&& forall|id: u128| #[trigger] t.posts.contains_key(id) ==> t.posts[id].created_at < p.created_at
}

/// Whether `ps` is a window of the posts of `user` in `t`, newest first, as
/// the listing statement with `limit` and `offset` reads it: rows of
/// `user`, at most `limit` of them, by falling creation time, and, when it
/// starts at the first post, headed by a newest post of `user`.
pub open spec fn posts_window(t: Tables, user: u128, limit: i64, offset: i64, ps: Seq<Post>) -> bool {
    &&& forall|i: int| 0 <= i < ps.len() ==> t.posts.contains_key(#[trigger] ps[i].id) && t.posts[ps[i].id] == ps[i]
        && ps[i].user_id == user
    &&& ps.len() <= limit
    &&& forall|i: int, j: int| 0 <= i < j < ps.len() ==> #[trigger] ps[j].created_at <= #[trigger] ps[i].created_at
    &&& (offset == 0 && limit >= 1 && posts_of(t, user).len() > 0) ==> {
        &&& ps.len() >= 1
        &&& forall|id: u128| #[trigger] posts_of(t, user).contains(id) ==> t.posts[id].created_at <= ps[0].created_at
    }
}

/// The follow rows whose followed account is `user`.
pub open spec fn followers_of(t: Tables, user: u128) -> Set<(u128, u128)> {
    t.follows.filter(|f: (u128, u128)| f.1 == user)
}

/// The follow rows whose follower is `user`.
pub open spec fn following_of(t: Tables, user: u128) -> Set<(u128, u128)> {
    t.follows.filter(|f: (u128, u128)| f.0 == user)
}

/// Whether `us` are at most `limit` account rows of `t`.
pub open spec fn accounts_window(t: Tables, us: Seq<User>, limit: i64) -> bool {
    &&& us.len() <= limit
    &&& forall|i: int| 0 <= i < us.len() ==> t.accounts.contains_key(#[trigger] us[i].id) && t.accounts[us[i].id] == us[i]
}

/// Whether `u` is the row that inserting `nu` into `t` writes: its fields
/// are the new account's, under an identifier no account has.
pub open spec fn inserted_row(t: Tables, nu: NewUser, u: User) -> bool {
    &&& !t.accounts.contains_key(u.id)
    &&& u.username == nu.username
    &&& u.email == nu.email
    &&& u.name == nu.name
    &&& u.password_hash == nu.password_hash
    &&& u.birthday == nu.birthday
}

/// The rows after statement `q` succeeds on `t` with answer `ev`; `None`
/// for statements the model leaves out, and for inserts that a missing
/// account or post, or an existing row or a taken username or email,
/// refuses.
pub open spec fn effect(t: Tables, q: Query, ev: Event) -> Option<Tables> {
    match q {
        Query::UsernameTaken(_) => Some(t),
        Query::PostsBy { .. } => Some(t),
        Query::UserById(_) => Some(t),
        Query::FollowersOf { .. } => Some(t),
        Query::FollowingOf { .. } => Some(t),
        Query::CountFollowers(_) => Some(t),
        Query::CountFollowing(_) => Some(t),
        Query::CountPostsBy(_) => Some(t),
        Query::InsertPost { user, .. } => match ev {
            Event::Post(p) => if t.accounts.contains_key(user) {
                Some(
                    Tables {
                        accounts: t.accounts,
                        like_counts: t.like_counts.insert(p.id, 0),
                        likes: t.likes,
                        follows: t.follows,
                        posts: t.posts.insert(p.id, p),
                    },
                )
            } else {
                None
            },
            _ => None,
        },
        Query::EmailTaken(_) => Some(t),
        Query::UserByUsername(_) => Some(t),
        Query::InsertUser(nu) => match ev {
            Event::User(u) => if !username_taken(t, nu.username@) && !email_taken(t, nu.email@) {
                Some(Tables { accounts: t.accounts.insert(u.id, u), like_counts: t.like_counts, likes: t.likes, follows: t.follows, posts: t.posts })
            } else {
                None
            },
            _ => None,
        },
        Query::LikeExists { .. } => Some(t),
        Query::UserExists(_) => Some(t),
        Query::IsFollowing { .. } => Some(t),
        Query::InsertLike { user, post } => if t.accounts.contains_key(user) && t.like_counts.contains_key(post)
            && !t.likes.contains((user, post)) {
            Some(Tables { accounts: t.accounts, like_counts: t.like_counts, likes: t.likes.insert((user, post)), follows: t.follows, posts: t.posts })
        } else {
            None
        },
        Query::IncrementLikes(post) => Some(
            Tables { accounts: t.accounts, like_counts: count_moved(t, post, 1), likes: t.likes, follows: t.follows, posts: t.posts },
        ),
        Query::DeleteLike { user, post } => Some(
            Tables { accounts: t.accounts, like_counts: t.like_counts, likes: t.likes.remove((user, post)), follows: t.follows, posts: t.posts },
        ),
        Query::DecrementLikes(post) => Some(
            Tables { accounts: t.accounts, like_counts: count_moved(t, post, -1), likes: t.likes, follows: t.follows, posts: t.posts },
        ),
        Query::InsertFollow { follower, followed } => if t.accounts.contains_key(follower) && t.accounts.contains_key(followed)
            && !t.follows.contains((follower, followed)) {
            Some(Tables { accounts: t.accounts, like_counts: t.like_counts, likes: t.likes, follows: t.follows.insert((follower, followed)), posts: t.posts })
        } else {
            None
        },
        Query::DeleteFollow { follower, followed } => Some(
            Tables { accounts: t.accounts, like_counts: t.like_counts, likes: t.likes, follows: t.follows.remove((follower, followed)), posts: t.posts },
        ),
        _ => None,
    }
}

/// Whether `ev` is the answer of statement `q` on `t` when it succeeds.
pub open spec fn answers(t: Tables, q: Query, ev: Event) -> bool {
    match q {
        Query::UsernameTaken(name) => ev == Event::Flag(username_taken(t, name@)),
        Query::InsertPost { title, body, user } => ev matches Event::Post(p) && new_post_row(t, title, body, user, p),
        Query::PostsBy { user, limit, offset } => ev matches Event::Posts(ps) && posts_window(t, user, limit, offset, ps@),
        Query::CountPostsBy(user) => ev matches Event::Count(n) && n == posts_of(t, user).len(),
        Query::UserById(id) => ev == Event::MaybeUser(
            if t.accounts.contains_key(id) { Some(t.accounts[id]) } else { None },
        ),
        Query::FollowersOf { user, limit, .. } => ev matches Event::Users(us) && accounts_window(t, us@, limit)
            && forall|i: int| 0 <= i < us@.len() ==> t.follows.contains((#[trigger] us@[i].id, user)),
        Query::FollowingOf { user, limit, .. } => ev matches Event::Users(us) && accounts_window(t, us@, limit)
            && forall|i: int| 0 <= i < us@.len() ==> t.follows.contains((user, #[trigger] us@[i].id)),
        Query::CountFollowers(user) => ev matches Event::Count(n) && n == followers_of(t, user).len(),
        Query::CountFollowing(user) => ev matches Event::Count(n) && n == following_of(t, user).len(),
        Query::EmailTaken(email) => ev == Event::Flag(email_taken(t, email@)),
        Query::InsertUser(nu) => ev matches Event::User(u) && inserted_row(t, nu, u),
        Query::UserByUsername(name) => if username_taken(t, name@) {
            ev matches Event::MaybeUser(Some(u)) && t.accounts.contains_key(u.id) && t.accounts[u.id] == u
                && u.username@ == name@
        } else {
            ev == Event::MaybeUser(None)
        },
        Query::LikeExists { user, post } => ev == Event::Flag(t.likes.contains((user, post))),
        Query::UserExists(id) => ev == Event::Flag(t.accounts.contains_key(id)),
        Query::IsFollowing { follower, followed } => ev == Event::Flag(t.follows.contains((follower, followed))),
        Query::InsertLike { user, post } => ev matches Event::Like(l) && l.user_id == user && l.post_id == post,
        Query::IncrementLikes(_) => ev == Event::Done,
        Query::DecrementLikes(_) => ev == Event::Done,
        Query::InsertFollow { .. } => ev == Event::Done,
        Query::DeleteLike { user, post } => ev == Event::Rows(if t.likes.contains((user, post)) { 1 } else { 0 }),
        Query::DeleteFollow { follower, followed } => ev == Event::Rows(
            if t.follows.contains((follower, followed)) { 1 } else { 0 },
        ),
        _ => false,
    }
}

/// Whether cache removal `op` takes away `key`.
pub open spec fn removes(op: CacheOp, key: Seq<char>) -> bool {
    match op {
        CacheOp::Delete(k) => k@ == key,
        CacheOp::InvalidatePattern(p) => star_match(p@, key),
    }
}

/// The cache keys that are left when every removal of `ops` is carried out.
pub open spec fn cleared(cache: Set<Seq<char>>, ops: Seq<CacheOp>) -> Set<Seq<char>> {
    cache.filter(|k: Seq<char>| forall|i: int| 0 <= i < ops.len() ==> !removes(#[trigger] ops[i], k))
}

/// Whether the driver may answer action `a`, taken on `s`, with `ev`,
/// leaving `s2`. Any action may fail and change nothing; a statement
/// otherwise does what `effect` says, a transaction opens on the committed
/// rows and commits its own, a cache read hits exactly when the cache holds
/// the key, a cache removal takes away at most the keys its removals
/// match, and at least those unless a removal failed (which is only
/// reported), and signing changes nothing. Nothing follows a reply, which
/// drops an open transaction.
pub open spec fn serves(s: Store, a: Action, ev: Event, s2: Store) -> bool {
    ||| ev is Failed && s2 == s
    ||| match a {
        Action::Run(q) => {
            &&& answers(current(s), q, ev)
            &&& effect(current(s), q, ev) matches Some(t)
            &&& s2 == with_current(s, t)
        },
        Action::BeginTransaction => s.pending is None && ev == Event::Done && s2 == (Store {
            committed: s.committed,
            pending: Some(s.committed),
            cache: s.cache,
        }),
        Action::CommitTransaction => {
            &&& s.pending matches Some(t)
            &&& ev == Event::Done
            &&& s2 == (Store { committed: t, pending: None, cache: s.cache })
        },
        Action::LookupCache(k) => s2 == s && ev == if s.cache.contains(k@) {
            Event::CacheHit
        } else {
            Event::CacheMiss
        },
        Action::Invalidate(ops) => {
            &&& ev == Event::Done
            &&& s2.committed == s.committed
            &&& s2.pending == s.pending
            &&& cleared(s.cache, ops@).subset_of(s2.cache)
            &&& s2.cache.subset_of(s.cache)
        },
        Action::IssueToken(_) => ev is Token && s2 == s,
        Action::Finish(_) => false,
    }
}

/// Whether action `a` replies successfully.
pub open spec fn replies_ok(a: Action) -> bool {
    a matches Action::Finish(rep) && rep.outcome is Ok
}

/// Whether action `a` replies with a failure.
pub open spec fn replies_err(a: Action) -> bool {
    a matches Action::Finish(rep) && rep.outcome is Err
}

/// The rows after `user` liked `post`: the like row, and one more in the
/// post's count.
pub open spec fn liked(t: Tables, user: u128, post: u128) -> Tables {
    Tables { accounts: t.accounts, like_counts: count_moved(t, post, 1), likes: t.likes.insert((user, post)), follows: t.follows, posts: t.posts }
}

/// The rows after `user`'s like of `post` was removed: no like row, and one
/// less in the post's count.
pub open spec fn unliked(t: Tables, user: u128, post: u128) -> Tables {
    Tables { accounts: t.accounts, like_counts: count_moved(t, post, -1), likes: t.likes.remove((user, post)), follows: t.follows, posts: t.posts }
}

/// Whether `flows`, `acts`, `evs` and `stores` are a run of one like
/// request to its reply: each state and action follows from the one before
/// and the driver's answer to it, and the last action is the reply.
pub open spec fn like_run(flows: Seq<LikePostFlow>, acts: Seq<Action>, evs: Seq<Event>, stores: Seq<Store>) -> bool {
    &&& flows.len() == acts.len()
    &&& stores.len() == acts.len()
    &&& evs.len() + 1 == acts.len()
    &&& LikePostFlow::opens(flows[0], acts[0])
    &&& acts.last() is Finish
    &&& forall|i: int| 0 <= i < evs.len() ==> {
        &&& !(flows[i] is Finished)
        &&& #[trigger] flows[i].steps_to(evs[i], (flows[i + 1], acts[i + 1]))
        &&& serves(stores[i], acts[i], evs[i], stores[i + 1])
    }
}

/// Whether the arguments are a run of one unlike request to its reply.
pub open spec fn unlike_run(flows: Seq<UnlikePostFlow>, acts: Seq<Action>, evs: Seq<Event>, stores: Seq<Store>) -> bool {
    &&& flows.len() == acts.len()
    &&& stores.len() == acts.len()
    &&& evs.len() + 1 == acts.len()
    &&& UnlikePostFlow::opens(flows[0], acts[0])
    &&& acts.last() is Finish
    &&& forall|i: int| 0 <= i < evs.len() ==> {
        &&& !(flows[i] is Finished)
        &&& #[trigger] flows[i].steps_to(evs[i], (flows[i + 1], acts[i + 1]))
        &&& serves(stores[i], acts[i], evs[i], stores[i + 1])
    }
}

/// Whether the arguments are a run of one follow request to its reply.
pub open spec fn follow_run(flows: Seq<FollowUserFlow>, acts: Seq<Action>, evs: Seq<Event>, stores: Seq<Store>) -> bool {
    &&& flows.len() == acts.len()
    &&& stores.len() == acts.len()
    &&& evs.len() + 1 == acts.len()
    &&& FollowUserFlow::opens(flows[0], acts[0])
    &&& acts.last() is Finish
    &&& forall|i: int| 0 <= i < evs.len() ==> {
        &&& !(flows[i] is Finished)
        &&& #[trigger] flows[i].steps_to(evs[i], (flows[i + 1], acts[i + 1]))
        &&& serves(stores[i], acts[i], evs[i], stores[i + 1])
    }
}

/// Whether the arguments are a run of one unfollow request to its reply.
pub open spec fn unfollow_run(flows: Seq<UnfollowUserFlow>, acts: Seq<Action>, evs: Seq<Event>, stores: Seq<Store>) -> bool {
    &&& flows.len() == acts.len()
    &&& stores.len() == acts.len()
    &&& evs.len() + 1 == acts.len()
    &&& UnfollowUserFlow::opens(flows[0], acts[0])
    &&& acts.last() is Finish
    &&& forall|i: int| 0 <= i < evs.len() ==> {
        &&& !(flows[i] is Finished)
        &&& #[trigger] flows[i].steps_to(evs[i], (flows[i + 1], acts[i + 1]))
        &&& serves(stores[i], acts[i], evs[i], stores[i + 1])
    }
}

/// Where a like request by `user` of `post`, begun on committed rows `t0`,
/// stands.
spec fn like_stage(f: LikePostFlow, a: Action, s: Store, t0: Tables, user: u128, post: u128) -> bool {
    let fresh = !t0.likes.contains((user, post));
    let exists = t0.accounts.contains_key(user) && t0.like_counts.contains_key(post);
    let inserted = Tables { accounts: t0.accounts, like_counts: t0.like_counts, likes: t0.likes.insert((user, post)), follows: t0.follows, posts: t0.posts };
    match f {
        LikePostFlow::Checking { user: u, post: p } => u == user && p == post
            && a == Action::Run(Query::LikeExists { user, post }) && s.committed == t0 && s.pending is None,
        LikePostFlow::Beginning { user: u, post: p } => u == user && p == post && fresh
            && a == Action::BeginTransaction && s.committed == t0 && s.pending is None,
        LikePostFlow::Inserting { user: u, post: p } => u == user && p == post && fresh
            && a == Action::Run(Query::InsertLike { user, post }) && s.committed == t0 && s.pending == Some(t0),
        LikePostFlow::Counting { user: u, post: p, .. } => u == user && p == post && fresh && exists
            && a == Action::Run(Query::IncrementLikes(post)) && s.committed == t0 && s.pending == Some(inserted),
        LikePostFlow::Committing { user: u, post: p, .. } => u == user && p == post && fresh && exists
            && a == Action::CommitTransaction && s.committed == t0 && s.pending == Some(liked(t0, user, post)),
        LikePostFlow::Invalidating { .. } => fresh && exists && a is Invalidate
            && s.committed == liked(t0, user, post) && s.pending is None,
        LikePostFlow::Finished => {
            ||| replies_ok(a) && fresh && exists && s.committed == liked(t0, user, post)
            ||| replies_err(a) && s.committed == t0
        },
    }
}

proof fn lemma_like_stages(
    flows: Seq<LikePostFlow>,
    acts: Seq<Action>,
    evs: Seq<Event>,
    stores: Seq<Store>,
    user: u128,
    post: u128,
    i: int,
)
    requires
        like_run(flows, acts, evs, stores),
        flows[0] == (LikePostFlow::Checking { user, post }),
        stores[0].pending is None,
        0 <= i < acts.len(),
    ensures
        like_stage(flows[i], acts[i], stores[i], stores[0].committed, user, post),
    decreases i,
{
    if i > 0 {
        lemma_like_stages(flows, acts, evs, stores, user, post, i - 1);
        let j = i - 1;
        assert(flows[j].steps_to(evs[j], (flows[j + 1], acts[j + 1])));
    }
}

/// Whether the run ends its transaction: its reply is its last action.
proof fn lemma_like_ends(flows: Seq<LikePostFlow>, acts: Seq<Action>, evs: Seq<Event>, stores: Seq<Store>)
    requires
        like_run(flows, acts, evs, stores),
    ensures
        flows[0] is Finished ==> evs.len() == 0,
{
    if flows[0] is Finished && evs.len() > 0 {
        let k: int = 0;
        assert(flows[k].steps_to(evs[k], (flows[k + 1], acts[k + 1])));
    }
}

proof fn lemma_liked_keeps_counts(t: Tables, user: u128, post: u128)
    requires
        counts_agree(t),
        !t.likes.contains((user, post)),
        t.like_counts.contains_key(post),
    ensures
        counts_agree(liked(t, user, post)),
{
    let t2 = liked(t, user, post);
    assert forall|p: u128| #[trigger] t2.like_counts.contains_key(p) implies t2.like_counts[p] == likes_on(t2, p).len() by {
        t.likes.lemma_len_filter(|l: (u128, u128)| l.1 == p);
        if p == post {
            assert(likes_on(t2, p) =~= likes_on(t, p).insert((user, post)));
        } else {
            assert(likes_on(t2, p) =~= likes_on(t, p));
        }
    }
}

proof fn lemma_unliked_keeps_counts(t: Tables, user: u128, post: u128)
    requires
        counts_agree(t),
        t.likes.contains((user, post)),
    ensures
        counts_agree(unliked(t, user, post)),
{
    let t2 = unliked(t, user, post);
    assert forall|p: u128| #[trigger] t2.like_counts.contains_key(p) implies t2.like_counts[p] == likes_on(t2, p).len() by {
        t.likes.lemma_len_filter(|l: (u128, u128)| l.1 == p);
        if p == post {
            assert(likes_on(t2, p) =~= likes_on(t, p).remove((user, post)));
        } else {
            assert(likes_on(t2, p) =~= likes_on(t, p));
        }
    }
}

/// A like request, whatever it replies, leaves every post's `likes_count`
/// equal to the number of its like rows when it found them so: its insert
/// and its increment commit together or not at all.
pub proof fn lemma_like_keeps_counts(flows: Seq<LikePostFlow>, acts: Seq<Action>, evs: Seq<Event>, stores: Seq<Store>)
    requires
        like_run(flows, acts, evs, stores),
        stores[0].pending is None,
        counts_agree(stores[0].committed),
    ensures
        counts_agree(stores.last().committed),
{
    lemma_like_ends(flows, acts, evs, stores);
    match flows[0] {
        LikePostFlow::Checking { user, post } => {
            lemma_like_stages(flows, acts, evs, stores, user, post, acts.len() - 1);
            if replies_ok(acts.last()) {
                lemma_liked_keeps_counts(stores[0].committed, user, post);
            }
        },
        _ => {},
    }
}

/// Where an unlike request by `user` of `post`, begun on committed rows
/// `t1`, stands.
spec fn unlike_stage(f: UnlikePostFlow, a: Action, s: Store, t1: Tables, user: u128, post: u128) -> bool {
    let had = t1.likes.contains((user, post));
    let removed = Tables { accounts: t1.accounts, like_counts: t1.like_counts, likes: t1.likes.remove((user, post)), follows: t1.follows, posts: t1.posts };
    match f {
        UnlikePostFlow::Beginning { user: u, post: p } => u == user && p == post
            && a == Action::BeginTransaction && s.committed == t1 && s.pending is None,
        UnlikePostFlow::Deleting { user: u, post: p } => u == user && p == post
            && a == Action::Run(Query::DeleteLike { user, post }) && s.committed == t1 && s.pending == Some(t1),
        UnlikePostFlow::Counting { user: u, post: p } => u == user && p == post && had
            && a == Action::Run(Query::DecrementLikes(post)) && s.committed == t1 && s.pending == Some(removed),
        UnlikePostFlow::Committing { user: u, post: p } => u == user && p == post && had
            && a == Action::CommitTransaction && s.committed == t1 && s.pending == Some(unliked(t1, user, post)),
        UnlikePostFlow::Invalidating => had && a is Invalidate
            && s.committed == unliked(t1, user, post) && s.pending is None,
        UnlikePostFlow::Finished => {
            ||| replies_ok(a) && had && s.committed == unliked(t1, user, post)
            ||| replies_err(a) && s.committed == t1
        },
    }
}

proof fn lemma_unlike_stages(
    flows: Seq<UnlikePostFlow>,
    acts: Seq<Action>,
    evs: Seq<Event>,
    stores: Seq<Store>,
    user: u128,
    post: u128,
    i: int,
)
    requires
        unlike_run(flows, acts, evs, stores),
        flows[0] == (UnlikePostFlow::Beginning { user, post }),
        stores[0].pending is None,
        0 <= i < acts.len(),
    ensures
        unlike_stage(flows[i], acts[i], stores[i], stores[0].committed, user, post),
    decreases i,
{
    if i > 0 {
        lemma_unlike_stages(flows, acts, evs, stores, user, post, i - 1);
        let j = i - 1;
        assert(flows[j].steps_to(evs[j], (flows[j + 1], acts[j + 1])));
    }
}

proof fn lemma_unlike_ends(flows: Seq<UnlikePostFlow>, acts: Seq<Action>, evs: Seq<Event>, stores: Seq<Store>)
    requires
        unlike_run(flows, acts, evs, stores),
    ensures
        flows[0] is Finished ==> evs.len() == 0,
{
    if flows[0] is Finished && evs.len() > 0 {
        let k: int = 0;
        assert(flows[k].steps_to(evs[k], (flows[k + 1], acts[k + 1])));
    }
}

/// An unlike request, whatever it replies, leaves every post's
/// `likes_count` equal to the number of its like rows when it found them
/// so: its delete and its decrement commit together or not at all.
pub proof fn lemma_unlike_keeps_counts(flows: Seq<UnlikePostFlow>, acts: Seq<Action>, evs: Seq<Event>, stores: Seq<Store>)
    requires
        unlike_run(flows, acts, evs, stores),
        stores[0].pending is None,
        counts_agree(stores[0].committed),
    ensures
        counts_agree(stores.last().committed),
{
    lemma_unlike_ends(flows, acts, evs, stores);
    match flows[0] {
        UnlikePostFlow::Beginning { user, post } => {
            lemma_unlike_stages(flows, acts, evs, stores, user, post, acts.len() - 1);
            if replies_ok(acts.last()) {
                lemma_unliked_keeps_counts(stores[0].committed, user, post);
            }
        },
        _ => {},
    }
}

proof fn lemma_unlike_succeeds(
    flows: Seq<UnlikePostFlow>,
    acts: Seq<Action>,
    evs: Seq<Event>,
    stores: Seq<Store>,
    user: u128,
    post: u128,
    i: int,
)
    requires
        unlike_run(flows, acts, evs, stores),
        flows[0] == (UnlikePostFlow::Beginning { user, post }),
        stores[0].pending is None,
        stores[0].committed.likes.contains((user, post)),
        forall|k: int| 0 <= k < evs.len() ==> !(#[trigger] evs[k] is Failed),
        0 <= i < acts.len(),
    ensures
        unlike_stage(flows[i], acts[i], stores[i], stores[0].committed, user, post),
        flows[i] is Finished ==> crate::services::flow::succeeds_with_message(acts[i], "Post unliked successfully"@),
    decreases i,
{
    lemma_unlike_stages(flows, acts, evs, stores, user, post, i);
    if i > 0 {
        lemma_unlike_succeeds(flows, acts, evs, stores, user, post, i - 1);
        let j = i - 1;
        assert(flows[j].steps_to(evs[j], (flows[j + 1], acts[j + 1])));
        assert(!(evs[j] is Failed));
    }
}

/// An unlike undoes a like: when a like of `post` by `user` succeeds and
/// then, with no other request in between, the same user unlikes the same
/// post and no answer to it fails, the unlike succeeds with "Post unliked
/// successfully" and the rows are as before the like.
pub proof fn lemma_unlike_undoes_like(
    like_flows: Seq<LikePostFlow>,
    like_acts: Seq<Action>,
    like_evs: Seq<Event>,
    like_stores: Seq<Store>,
    unlike_flows: Seq<UnlikePostFlow>,
    unlike_acts: Seq<Action>,
    unlike_evs: Seq<Event>,
    unlike_stores: Seq<Store>,
    user: u128,
    post: u128,
)
    requires
        like_run(like_flows, like_acts, like_evs, like_stores),
        unlike_run(unlike_flows, unlike_acts, unlike_evs, unlike_stores),
        like_flows[0] == (LikePostFlow::Checking { user, post }),
        unlike_flows[0] == (UnlikePostFlow::Beginning { user, post }),
        like_stores[0].pending is None,
        unlike_stores[0].committed == like_stores.last().committed && unlike_stores[0].pending is None,
        replies_ok(like_acts.last()),
        forall|i: int| 0 <= i < unlike_evs.len() ==> !(#[trigger] unlike_evs[i] is Failed),
    ensures
        crate::services::flow::succeeds_with_message(unlike_acts.last(), "Post unliked successfully"@),
        unlike_stores.last().committed == like_stores[0].committed,
{
    let t0 = like_stores[0].committed;
    lemma_like_stages(like_flows, like_acts, like_evs, like_stores, user, post, like_acts.len() - 1);
    lemma_unlike_succeeds(unlike_flows, unlike_acts, unlike_evs, unlike_stores, user, post, unlike_acts.len() - 1);
    let back = unliked(liked(t0, user, post), user, post);
    assert(back.likes =~= t0.likes);
    assert(back.like_counts =~= t0.like_counts);
}

/// The rows after `follower` started following `followed`.
pub open spec fn followed(t: Tables, follower: u128, target: u128) -> Tables {
    Tables { accounts: t.accounts, like_counts: t.like_counts, likes: t.likes, follows: t.follows.insert((follower, target)), posts: t.posts }
}

/// The rows after `follower`'s follow of `followed` was removed.
pub open spec fn unfollowed(t: Tables, follower: u128, target: u128) -> Tables {
    Tables { accounts: t.accounts, like_counts: t.like_counts, likes: t.likes, follows: t.follows.remove((follower, target)), posts: t.posts }
}

/// Where a follow request of `follower` for `target`, begun on committed
/// rows `t0`, stands.
spec fn follow_stage(f: FollowUserFlow, a: Action, s: Store, t0: Tables, follower: u128, target: u128) -> bool {
    let fresh = !t0.follows.contains((follower, target));
    match f {
        FollowUserFlow::CheckingTarget { follower: x, target: y } => x == follower && y == target
            && a == Action::Run(Query::UserExists(target)) && s.committed == t0 && s.pending is None,
        FollowUserFlow::CheckingFollow { follower: x, target: y } => x == follower && y == target
            && a == Action::Run(Query::IsFollowing { follower, followed: target })
            && s.committed == t0 && s.pending is None,
        FollowUserFlow::Inserting { follower: x, target: y } => x == follower && y == target && fresh
            && a == Action::Run(Query::InsertFollow { follower, followed: target })
            && s.committed == t0 && s.pending is None,
        FollowUserFlow::Invalidating => fresh && a is Invalidate
            && s.committed == followed(t0, follower, target) && s.pending is None,
        FollowUserFlow::Finished => {
            ||| replies_ok(a) && fresh && s.committed == followed(t0, follower, target)
            ||| replies_err(a) && s.committed == t0
        },
    }
}

proof fn lemma_follow_stages(
    flows: Seq<FollowUserFlow>,
    acts: Seq<Action>,
    evs: Seq<Event>,
    stores: Seq<Store>,
    follower: u128,
    target: u128,
    i: int,
)
    requires
        follow_run(flows, acts, evs, stores),
        flows[0] == (FollowUserFlow::CheckingTarget { follower, target }),
        stores[0].pending is None,
        0 <= i < acts.len(),
    ensures
        follow_stage(flows[i], acts[i], stores[i], stores[0].committed, follower, target),
    decreases i,
{
    if i > 0 {
        lemma_follow_stages(flows, acts, evs, stores, follower, target, i - 1);
        let j = i - 1;
        assert(flows[j].steps_to(evs[j], (flows[j + 1], acts[j + 1])));
    }
}

/// Where an unfollow request of `follower` for `target`, begun on
/// committed rows `t1`, stands.
spec fn unfollow_stage(f: UnfollowUserFlow, a: Action, s: Store, t1: Tables, follower: u128, target: u128) -> bool {
    let had = t1.follows.contains((follower, target));
    match f {
        UnfollowUserFlow::Deleting { follower: x, target: y } => x == follower && y == target
            && a == Action::Run(Query::DeleteFollow { follower, followed: target })
            && s.committed == t1 && s.pending is None,
        UnfollowUserFlow::Invalidating => had && a is Invalidate
            && s.committed == unfollowed(t1, follower, target) && s.pending is None,
        UnfollowUserFlow::Finished => {
            ||| replies_ok(a) && had && s.committed == unfollowed(t1, follower, target)
            ||| replies_err(a) && s.committed == t1
        },
    }
}

proof fn lemma_unfollow_stages(
    flows: Seq<UnfollowUserFlow>,
    acts: Seq<Action>,
    evs: Seq<Event>,
    stores: Seq<Store>,
    follower: u128,
    target: u128,
    i: int,
)
    requires
        unfollow_run(flows, acts, evs, stores),
        flows[0] == (UnfollowUserFlow::Deleting { follower, target }),
        stores[0].pending is None,
        0 <= i < acts.len(),
    ensures
        unfollow_stage(flows[i], acts[i], stores[i], stores[0].committed, follower, target),
    decreases i,
{
    if i > 0 {
        lemma_unfollow_stages(flows, acts, evs, stores, follower, target, i - 1);
        let j = i - 1;
        let t1 = stores[0].committed;
        assert(flows[j].steps_to(evs[j], (flows[j + 1], acts[j + 1])));
        if !t1.follows.contains((follower, target)) {
            assert(t1.follows.remove((follower, target)) =~= t1.follows);
        }
    }
}

proof fn lemma_unfollow_succeeds(
    flows: Seq<UnfollowUserFlow>,
    acts: Seq<Action>,
    evs: Seq<Event>,
    stores: Seq<Store>,
    follower: u128,
    target: u128,
    i: int,
)
    requires
        unfollow_run(flows, acts, evs, stores),
        flows[0] == (UnfollowUserFlow::Deleting { follower, target }),
        stores[0].pending is None,
        stores[0].committed.follows.contains((follower, target)),
        forall|k: int| 0 <= k < evs.len() ==> !(#[trigger] evs[k] is Failed),
        0 <= i < acts.len(),
    ensures
        unfollow_stage(flows[i], acts[i], stores[i], stores[0].committed, follower, target),
        flows[i] is Finished ==> crate::services::flow::succeeds_with_message(acts[i], "User unfollowed successfully"@),
    decreases i,
{
    lemma_unfollow_stages(flows, acts, evs, stores, follower, target, i);
    if i > 0 {
        lemma_unfollow_succeeds(flows, acts, evs, stores, follower, target, i - 1);
        let j = i - 1;
        assert(flows[j].steps_to(evs[j], (flows[j + 1], acts[j + 1])));
        assert(!(evs[j] is Failed));
    }
}

/// An unfollow undoes a follow: when `follower`'s follow of `target`
/// succeeds and then, with no other request in between, the same unfollow
/// runs and no answer to it fails, the unfollow succeeds with "User
/// unfollowed successfully", the rows are as before the follow, and they
/// hold no follow of `target` by `follower`.
pub proof fn lemma_unfollow_undoes_follow(
    follow_flows: Seq<FollowUserFlow>,
    follow_acts: Seq<Action>,
    follow_evs: Seq<Event>,
    follow_stores: Seq<Store>,
    unfollow_flows: Seq<UnfollowUserFlow>,
    unfollow_acts: Seq<Action>,
    unfollow_evs: Seq<Event>,
    unfollow_stores: Seq<Store>,
    follower: u128,
    target: u128,
)
    requires
        follow_run(follow_flows, follow_acts, follow_evs, follow_stores),
        unfollow_run(unfollow_flows, unfollow_acts, unfollow_evs, unfollow_stores),
        follow_flows[0] == (FollowUserFlow::CheckingTarget { follower, target }),
        unfollow_flows[0] == (UnfollowUserFlow::Deleting { follower, target }),
        follow_stores[0].pending is None,
        unfollow_stores[0].committed == follow_stores.last().committed && unfollow_stores[0].pending is None,
        replies_ok(follow_acts.last()),
        forall|i: int| 0 <= i < unfollow_evs.len() ==> !(#[trigger] unfollow_evs[i] is Failed),
    ensures
        crate::services::flow::succeeds_with_message(unfollow_acts.last(), "User unfollowed successfully"@),
        unfollow_stores.last().committed == follow_stores[0].committed,
        !unfollow_stores.last().committed.follows.contains((follower, target)),
{
    let t0 = follow_stores[0].committed;
    lemma_follow_stages(follow_flows, follow_acts, follow_evs, follow_stores, follower, target, follow_acts.len() - 1);
    lemma_unfollow_succeeds(unfollow_flows, unfollow_acts, unfollow_evs, unfollow_stores, follower, target, unfollow_acts.len() - 1);
    assert(unfollowed(followed(t0, follower, target), follower, target).follows =~= t0.follows);
}

/// An unfollow where there is nothing to remove is refused: when the rows
/// hold no follow of `target` by `follower` and no answer fails, the
/// request ends with 404 "You are not following this user" and changes no
/// row.
pub proof fn lemma_missing_unfollow_is_refused(
    flows: Seq<UnfollowUserFlow>,
    acts: Seq<Action>,
    evs: Seq<Event>,
    stores: Seq<Store>,
    follower: u128,
    target: u128,
)
    requires
        unfollow_run(flows, acts, evs, stores),
        flows[0] == (UnfollowUserFlow::Deleting { follower, target }),
        stores[0].pending is None,
        !stores[0].committed.follows.contains((follower, target)),
        forall|i: int| 0 <= i < evs.len() ==> !(#[trigger] evs[i] is Failed),
    ensures
        crate::services::flow::fails_with(acts.last(), crate::services::flow::NOT_FOUND, "You are not following this user"@),
        stores.last().committed == stores[0].committed,
{
    let t1 = stores[0].committed;
    let k: int = 0;
    assert(flows[k].steps_to(evs[k], (flows[k + 1], acts[k + 1])));
    assert(!(evs[k] is Failed));
    assert(t1.follows.remove((follower, target)) =~= t1.follows);
    if evs.len() > 1 {
        let m: int = 1;
        assert(flows[m].steps_to(evs[m], (flows[m + 1], acts[m + 1])));
    }
}

/// Whether the arguments are a run of one registration to its reply.
pub open spec fn register_run(flows: Seq<RegisterUserFlow>, acts: Seq<Action>, evs: Seq<Event>, stores: Seq<Store>) -> bool {
    &&& flows.len() == acts.len()
    &&& stores.len() == acts.len()
    &&& evs.len() + 1 == acts.len()
    &&& RegisterUserFlow::opens(flows[0], acts[0])
    &&& acts.last() is Finish
    &&& forall|i: int| 0 <= i < evs.len() ==> {
        &&& !(flows[i] is Finished)
        &&& #[trigger] flows[i].steps_to(evs[i], (flows[i + 1], acts[i + 1]))
        &&& serves(stores[i], acts[i], evs[i], stores[i + 1])
    }
}

/// Whether the arguments are a run of one login to its reply.
pub open spec fn login_run(flows: Seq<LoginUserFlow>, acts: Seq<Action>, evs: Seq<Event>, stores: Seq<Store>) -> bool {
    &&& flows.len() == acts.len()
    &&& stores.len() == acts.len()
    &&& evs.len() + 1 == acts.len()
    &&& LoginUserFlow::opens(flows[0], acts[0])
    &&& acts.last() is Finish
    &&& forall|i: int| 0 <= i < evs.len() ==> {
        &&& !(flows[i] is Finished)
        &&& #[trigger] flows[i].steps_to(evs[i], (flows[i + 1], acts[i + 1]))
        &&& serves(stores[i], acts[i], evs[i], stores[i + 1])
    }
}

/// Whether `t` is `t0` with one new account, replied as `r`, registered
/// with `payload`: it has the payload's username and a stored hash that
/// `bcrypt::verify` accepts for the payload's password.
pub open spec fn registered(t0: Tables, t: Tables, payload: RegisterUser, r: UserResponse) -> bool {
    &&& !t0.accounts.contains_key(r.id)
    &&& t.accounts == t0.accounts.insert(r.id, t.accounts[r.id])
    &&& t.like_counts == t0.like_counts
    &&& t.likes == t0.likes
    &&& t.follows == t0.follows
    &&& UserResponse::of(t.accounts[r.id]) == r
    &&& t.accounts[r.id].username == payload.username
    &&& password::bcrypt_verify_result(payload.password@, t.accounts[r.id].password_hash@) == Ok::<bool, Seq<char>>(true)
}

/// Where a registration with `payload`, begun on committed rows `t0`,
/// stands.
spec fn register_stage(f: RegisterUserFlow, a: Action, s: Store, t0: Tables, payload: RegisterUser) -> bool {
    let free = !username_taken(t0, payload.username@) && !email_taken(t0, payload.email@);
    match f {
        RegisterUserFlow::CheckingUsername { payload: p } => p == payload
            && a == Action::Run(Query::UsernameTaken(payload.username)) && s.committed == t0 && s.pending is None,
        RegisterUserFlow::CheckingEmail { payload: p } => p == payload && !username_taken(t0, payload.username@)
            && a == Action::Run(Query::EmailTaken(payload.email)) && s.committed == t0 && s.pending is None,
        RegisterUserFlow::Inserting => {
            &&& free
            &&& s.committed == t0
            &&& s.pending is None
            &&& a matches Action::Run(Query::InsertUser(nu))
            &&& nu.username == payload.username
            &&& nu.email == payload.email
            &&& password::bcrypt_verify_result(payload.password@, nu.password_hash@) == Ok::<bool, Seq<char>>(true)
        },
        RegisterUserFlow::Finished => {
            ||| replies_err(a) && s.committed == t0
            ||| {
                &&& free
                &&& a matches Action::Finish(rep)
                &&& rep.outcome matches Ok(Body::User(r))
                &&& registered(t0, s.committed, payload, r)
            }
        },
    }
}

proof fn lemma_register_stages(
    flows: Seq<RegisterUserFlow>,
    acts: Seq<Action>,
    evs: Seq<Event>,
    stores: Seq<Store>,
    payload: RegisterUser,
    i: int,
)
    requires
        register_run(flows, acts, evs, stores),
        flows[0] == (RegisterUserFlow::CheckingUsername { payload }),
        stores[0].pending is None,
        0 <= i < acts.len(),
    ensures
        register_stage(flows[i], acts[i], stores[i], stores[0].committed, payload),
    decreases i,
{
    if i > 0 {
        lemma_register_stages(flows, acts, evs, stores, payload, i - 1);
        let j = i - 1;
        let t0 = stores[0].committed;
        assert(flows[j].steps_to(evs[j], (flows[j + 1], acts[j + 1])));
        if flows[j] is Inserting && evs[j] is User {
            let u = evs[j]->User_0;
            let t = stores[i].committed;
            assert(t.accounts =~= t0.accounts.insert(u.id, u));
        }
    }
}

/// A registered account logs in: when a registration succeeds and then,
/// with no other request in between and no answer failing, a login at
/// `now` gives the same username and password, the login succeeds with
/// the registered account and the token the signer returned for claims
/// whose subject and `id` name the account and that expire an hour after
/// `now`.
pub proof fn lemma_registered_account_logs_in(
    reg_flows: Seq<RegisterUserFlow>,
    reg_acts: Seq<Action>,
    reg_evs: Seq<Event>,
    reg_stores: Seq<Store>,
    login_flows: Seq<LoginUserFlow>,
    login_acts: Seq<Action>,
    login_evs: Seq<Event>,
    login_stores: Seq<Store>,
    payload: RegisterUser,
    now: i64,
)
    requires
        register_run(reg_flows, reg_acts, reg_evs, reg_stores),
        reg_flows[0] == (RegisterUserFlow::CheckingUsername { payload }),
        reg_stores[0].pending is None,
        replies_ok(reg_acts.last()),
        login_run(login_flows, login_acts, login_evs, login_stores),
        login_flows[0] matches LoginUserFlow::FindingUser { payload: l, now: n } && l.username == payload.username
            && l.password == payload.password && n == now,
        login_stores[0].committed == reg_stores.last().committed && login_stores[0].pending is None,
        forall|i: int| 0 <= i < login_evs.len() ==> !(#[trigger] login_evs[i] is Failed),
    ensures
        reg_acts.last() matches Action::Finish(reg) && reg.outcome matches Ok(Body::User(r)) && {
            &&& login_acts.len() == 3
            &&& login_acts[1] matches Action::IssueToken(c) && user_service::issues_token_for(c, r.id, now)
            &&& login_evs[1] matches Event::Token(t)
            &&& login_acts[2] matches Action::Finish(rep)
            &&& rep.outcome == Ok::<Body, crate::services::flow::ApiError>(Body::Login { user: r, access_token: t })
        },
{
    let t0 = reg_stores[0].committed;
    lemma_register_stages(reg_flows, reg_acts, reg_evs, reg_stores, payload, reg_acts.len() - 1);
    let t2 = reg_stores.last().committed;
    let r = reg_acts.last()->Finish_0.outcome->Ok_0->User_0;
    let acc = t2.accounts[r.id];
    assert(t2.accounts.contains_key(r.id));
    assert(username_taken(t2, payload.username@));
    let k: int = 0;
    assert(login_flows[k].steps_to(login_evs[k], (login_flows[k + 1], login_acts[k + 1])));
    assert(!(login_evs[k] is Failed));
    let u = login_evs[k]->MaybeUser_0->Some_0;
    if u.id != r.id {
        assert(t0.accounts.contains_key(u.id) && t0.accounts[u.id].username@ == payload.username@);
        assert(username_taken(t0, payload.username@));
    }
    assert(u == acc);
    let m: int = 1;
    assert(login_flows[m].steps_to(login_evs[m], (login_flows[m + 1], login_acts[m + 1])));
    assert(!(login_evs[m] is Failed));
    if login_evs.len() > 2 {
        let q: int = 2;
        assert(login_flows[q].steps_to(login_evs[q], (login_flows[q + 1], login_acts[q + 1])));
    }
}

/// Whether the arguments are a run of one publication to its reply.
pub open spec fn create_post_run(flows: Seq<CreatePostFlow>, acts: Seq<Action>, evs: Seq<Event>, stores: Seq<Store>) -> bool {
    &&& flows.len() == acts.len()
    &&& stores.len() == acts.len()
    &&& evs.len() + 1 == acts.len()
    &&& CreatePostFlow::opens(flows[0], acts[0])
    &&& acts.last() is Finish
    &&& forall|i: int| 0 <= i < evs.len() ==> {
        &&& !(flows[i] is Finished)
        &&& #[trigger] flows[i].steps_to(evs[i], (flows[i + 1], acts[i + 1]))
        &&& serves(stores[i], acts[i], evs[i], stores[i + 1])
    }
}

/// Whether the arguments are a run of one listing to its reply.
pub open spec fn listing_run(flows: Seq<ListFlow>, acts: Seq<Action>, evs: Seq<Event>, stores: Seq<Store>) -> bool {
    &&& flows.len() == acts.len()
    &&& stores.len() == acts.len()
    &&& evs.len() + 1 == acts.len()
    &&& acts.last() is Finish
    &&& forall|i: int| 0 <= i < evs.len() ==> {
        &&& !(flows[i] is Finished)
        &&& #[trigger] flows[i].steps_to(evs[i], (flows[i + 1], acts[i + 1]))
        &&& serves(stores[i], acts[i], evs[i], stores[i + 1])
    }
}

/// Whether every cache removal in a run took away all the keys it matches.
pub open spec fn removals_carried_out(acts: Seq<Action>, stores: Seq<Store>) -> bool {
    forall|i: int| 0 <= i < acts.len() - 1 ==> (#[trigger] acts[i] matches Action::Invalidate(ops) ==> stores[i
        + 1].cache == cleared(stores[i].cache, ops@))
}

/// A new post heads its author's first page: when `author` publishes a
/// post and its cache removals are carried out, and then, with no other
/// request in between and no answer failing, `author` lists their own
/// posts from page 1 with any page size, the listing is read afresh from
/// the database: its first post is the new one, its total is one more than
/// the author's posts before, and it carries page 1 and the page size.
pub proof fn lemma_new_post_heads_author_listing(
    create_flows: Seq<CreatePostFlow>,
    create_acts: Seq<Action>,
    create_evs: Seq<Event>,
    create_stores: Seq<Store>,
    list_flows: Seq<ListFlow>,
    list_acts: Seq<Action>,
    list_evs: Seq<Event>,
    list_stores: Seq<Store>,
    author: u128,
    limit: i64,
)
    requires
        create_post_run(create_flows, create_acts, create_evs, create_stores),
        create_flows[0] == (CreatePostFlow::Inserting { user: author }),
        create_stores[0].pending is None,
        create_stores[0].committed.posts.dom().finite(),
        replies_ok(create_acts.last()),
        removals_carried_out(create_acts, create_stores),
        listing_run(list_flows, list_acts, list_evs, list_stores),
        1 <= limit,
        read_flow::starts_listing(
            (list_flows[0], list_acts[0]),
            author,
            1,
            limit,
            keys::page_key("user:posts:"@, author, 1, (limit as u32) as int),
            60,
            None,
            Listing::PostsBy,
            false,
            false,
        ),
        list_stores[0] == create_stores.last(),
        forall|i: int| 0 <= i < list_evs.len() ==> !(#[trigger] list_evs[i] is Failed),
    ensures
        create_acts.last() matches Action::Finish(c) && c.outcome matches Ok(Body::PostEnvelope(p)) && {
            &&& list_acts.last() matches Action::Finish(rep)
            &&& rep.outcome matches Ok(Body::Posts { posts, total, page, limit: l })
            &&& posts@.len() >= 1
            &&& posts@[0] == p
            &&& total == posts_of(create_stores[0].committed, author).len() + 1
            &&& page == 1
            &&& l == limit
        },
{
    let t0 = create_stores[0].committed;
    // The publication: the insert, then the cache removals, then the reply.
    let k0: int = 0;
    assert(create_flows[k0].steps_to(create_evs[k0], (create_flows[k0 + 1], create_acts[k0 + 1])));
    if create_evs.len() > 1 {
        let k1: int = 1;
        assert(create_flows[k1].steps_to(create_evs[k1], (create_flows[k1 + 1], create_acts[k1 + 1])));
        if create_evs.len() > 2 {
            let k2: int = 2;
            assert(create_flows[k2].steps_to(create_evs[k2], (create_flows[k2 + 1], create_acts[k2 + 1])));
        }
    }
    assert(create_evs.len() == 2);
    let p = create_evs[0]->Post_0;
    let t1 = create_stores[1].committed;
    assert(t1.posts == t0.posts.insert(p.id, p));
    let ops = create_acts[1]->Invalidate_0;
    assert(create_acts[1] matches Action::Invalidate(o));
    assert(create_stores[2].cache == cleared(create_stores[1].cache, ops@));
    let key = keys::page_key("user:posts:"@, author, 1, (limit as u32) as int);
    post_service::lemma_post_creation_clears_author_pages(ops@, author, 1, (limit as u32) as int);
    assert(removes(ops@[0], key));
    assert(!create_stores[2].cache.contains(key));
    // The author's posts: one more, the new one newest.
    t0.posts.dom().lemma_len_filter(|id: u128| t0.posts[id].user_id == author);
    assert(posts_of(t1, author) =~= posts_of(t0, author).insert(p.id));
    assert(posts_of(t1, author).contains(p.id));
    // The listing: a cache miss, the window, the total, the reply.
    let plan = list_flows[0]->Looking_plan;
    let m0: int = 0;
    assert(list_flows[m0].steps_to(list_evs[m0], (list_flows[m0 + 1], list_acts[m0 + 1])));
    assert(list_evs[m0] == Event::CacheMiss);
    assert(read_flow::plan_offset(plan) == 0);
    let m1: int = 1;
    assert(list_flows[m1].steps_to(list_evs[m1], (list_flows[m1 + 1], list_acts[m1 + 1])));
    let ps = list_evs[m1]->Posts_0;
    assert(posts_window(t1, author, limit, 0, ps@));
    let first = ps@[0];
    if first.id != p.id {
        assert(t0.posts.contains_key(first.id));
        assert(t1.posts[p.id].created_at <= first.created_at);
    }
    let m2: int = 2;
    assert(list_flows[m2].steps_to(list_evs[m2], (list_flows[m2 + 1], list_acts[m2 + 1])));
    if list_evs.len() > 3 {
        let m3: int = 3;
        assert(list_flows[m3].steps_to(list_evs[m3], (list_flows[m3 + 1], list_acts[m3 + 1])));
    }
}

/// The answer `items` gives to a window statement.
pub open spec fn items_answer(items: read_flow::Items) -> Event {
    match items {
        read_flow::Items::Posts(ps) => Event::Posts(ps),
        read_flow::Items::Users(us) => Event::Users(us),
        read_flow::Items::Comments(cs) => Event::Comments(cs),
    }
}

/// Where a listing with plan `plan0`, begun on committed rows `t0`, stands:
/// it only reads, and a fetched window is the answer to the plan's window
/// statement on those rows.
spec fn list_stage(f: ListFlow, a: Action, s: Store, t0: Tables, plan0: read_flow::ListPlan) -> bool {
    &&& s.committed == t0
    &&& s.pending is None
    &&& match f {
        ListFlow::Looking { plan } => plan == plan0 && a matches Action::LookupCache(_),
        ListFlow::FindingOwner { plan } => plan == plan0 && a == Action::Run(Query::UserById(plan.subject)),
        ListFlow::Listing { plan, .. } => plan == plan0 && a == Action::Run(read_flow::window_query(plan)),
        ListFlow::Counting { plan, items, .. } => plan == plan0 && a == Action::Run(read_flow::total_query(plan))
            && answers(t0, read_flow::window_query(plan), items_answer(items)),
        ListFlow::Finished => a is Finish,
    }
}

proof fn lemma_list_stages(
    flows: Seq<ListFlow>,
    acts: Seq<Action>,
    evs: Seq<Event>,
    stores: Seq<Store>,
    plan: read_flow::ListPlan,
    i: int,
)
    requires
        listing_run(flows, acts, evs, stores),
        flows[0] == (ListFlow::Looking { plan }),
        acts[0] matches Action::LookupCache(_),
        stores[0].pending is None,
        0 <= i < acts.len(),
    ensures
        list_stage(flows[i], acts[i], stores[i], stores[0].committed, plan),
    decreases i,
{
    if i > 0 {
        lemma_list_stages(flows, acts, evs, stores, plan, i - 1);
        let j = i - 1;
        assert(flows[j].steps_to(evs[j], (flows[j + 1], acts[j + 1])));
    }
}

/// What a listing run replies with a listing body comes from its last two
/// answers: its window and its total, both read from the rows it began on.
proof fn lemma_list_reply(flows: Seq<ListFlow>, acts: Seq<Action>, evs: Seq<Event>, stores: Seq<Store>, plan: read_flow::ListPlan)
    requires
        listing_run(flows, acts, evs, stores),
        flows[0] == (ListFlow::Looking { plan }),
        acts[0] matches Action::LookupCache(_),
        stores[0].pending is None,
        acts.last() matches Action::Finish(rep) && rep.outcome matches Ok(b) && read_flow::reply_meta(b) is Some,
    ensures
        evs.len() >= 1,
        flows[evs.len() - 1] matches ListFlow::Counting { plan: p, owner, items } && p == plan && {
            &&& answers(stores[0].committed, read_flow::window_query(plan), items_answer(items))
            &&& evs[evs.len() - 1] matches Event::Count(n)
            &&& answers(stores[0].committed, read_flow::total_query(plan), Event::Count(n))
            &&& acts.last() matches Action::Finish(rep) && rep.outcome matches Ok(b)
                && read_flow::listing_body_is(b, plan, owner, items, n)
        },
{
    if evs.len() == 0 {
        assert(acts[0] is Finish);
    }
    let j = evs.len() - 1;
    lemma_list_stages(flows, acts, evs, stores, plan, j);
    assert(flows[j].steps_to(evs[j], (flows[j + 1], acts[j + 1])));
}

/// A listing of the accounts an account follows lists only accounts it
/// follows, and counts all of them: whatever else the listing does, a
/// reply with accounts lists, under `following`, accounts whose follow by
/// the subject is a row, and its total is the number of those rows.
pub proof fn lemma_following_lists_followed_accounts(
    flows: Seq<ListFlow>,
    acts: Seq<Action>,
    evs: Seq<Event>,
    stores: Seq<Store>,
    plan: read_flow::ListPlan,
)
    requires
        listing_run(flows, acts, evs, stores),
        flows[0] == (ListFlow::Looking { plan }),
        acts[0] matches Action::LookupCache(_),
        stores[0].pending is None,
        plan.listing is FollowingOf,
    ensures
        acts.last() matches Action::Finish(rep) && rep.outcome matches Ok(Body::Follows { users, total, followers, .. })
            ==> {
            &&& !followers
            &&& forall|i: int| 0 <= i < users@.len() ==> stores[0].committed.follows.contains(
                (plan.subject, #[trigger] users@[i].id),
            )
            &&& total == following_of(stores[0].committed, plan.subject).len()
        },
{
    if acts.last() matches Action::Finish(rep) && rep.outcome matches Ok(Body::Follows { .. }) {
        lemma_list_reply(flows, acts, evs, stores, plan);
        let t0 = stores[0].committed;
        let j = evs.len() - 1;
        let items = flows[j]->Counting_items;
        match items {
            read_flow::Items::Users(us) => {
                let body = acts.last()->Finish_0.outcome->Ok_0;
                let bu = body->Follows_users;
                assert forall|i: int| 0 <= i < bu@.len() implies t0.follows.contains((plan.subject, bu@[i].id)) by {
                    assert(bu@[i] == UserResponse::of(us@[i]));
                }
            },
            _ => {},
        }
    }
}

/// A listing of an account's followers lists only its followers, and
/// counts all of them: a reply with accounts lists, under `followers`,
/// accounts whose follow of the subject is a row, and its total is the
/// number of those rows.
pub proof fn lemma_followers_lists_following_accounts(
    flows: Seq<ListFlow>,
    acts: Seq<Action>,
    evs: Seq<Event>,
    stores: Seq<Store>,
    plan: read_flow::ListPlan,
)
    requires
        listing_run(flows, acts, evs, stores),
        flows[0] == (ListFlow::Looking { plan }),
        acts[0] matches Action::LookupCache(_),
        stores[0].pending is None,
        plan.listing is FollowersOf,
    ensures
        acts.last() matches Action::Finish(rep) && rep.outcome matches Ok(Body::Follows { users, total, followers, .. })
            ==> {
            &&& followers
            &&& forall|i: int| 0 <= i < users@.len() ==> stores[0].committed.follows.contains(
                (#[trigger] users@[i].id, plan.subject),
            )
            &&& total == followers_of(stores[0].committed, plan.subject).len()
        },
{
    if acts.last() matches Action::Finish(rep) && rep.outcome matches Ok(Body::Follows { .. }) {
        lemma_list_reply(flows, acts, evs, stores, plan);
        let t0 = stores[0].committed;
        let j = evs.len() - 1;
        let items = flows[j]->Counting_items;
        match items {
            read_flow::Items::Users(us) => {
                let body = acts.last()->Finish_0.outcome->Ok_0;
                let bu = body->Follows_users;
                assert forall|i: int| 0 <= i < bu@.len() implies t0.follows.contains((bu@[i].id, plan.subject)) by {
                    assert(bu@[i] == UserResponse::of(us@[i]));
                }
            },
            _ => {},
        }
    }
}

/// Whether `b` is a reply listing posts of `plan`'s subject: a profile or a
/// page of posts, at most a page long, all by the subject, whose total is
/// the number of all the subject's posts in `t`.
pub open spec fn posts_reply_counts_all(t: Tables, plan: read_flow::ListPlan, b: Body) -> bool {
    match b {
        Body::Profile { posts, total, .. } => {
            &&& total == posts_of(t, plan.subject).len()
            &&& posts@.len() <= plan.limit
            &&& forall|i: int| 0 <= i < posts@.len() ==> (#[trigger] posts@[i]).user_id == plan.subject
        },
        Body::Posts { posts, total, .. } => {
            &&& total == posts_of(t, plan.subject).len()
            &&& posts@.len() <= plan.limit
            &&& forall|i: int| 0 <= i < posts@.len() ==> (#[trigger] posts@[i]).user_id == plan.subject
        },
        _ => false,
    }
}

/// A listing of an account's posts, with or without its profile, lists only
/// that account's posts, at most a page of them, and carries as its total
/// the number of all the account's posts, not the length of the page.
pub proof fn lemma_posts_listing_counts_all_posts(
    flows: Seq<ListFlow>,
    acts: Seq<Action>,
    evs: Seq<Event>,
    stores: Seq<Store>,
    plan: read_flow::ListPlan,
)
    requires
        listing_run(flows, acts, evs, stores),
        flows[0] == (ListFlow::Looking { plan }),
        acts[0] matches Action::LookupCache(_),
        stores[0].pending is None,
        plan.listing is PostsBy,
        read_flow::plan_window_fits(plan),
    ensures
        acts.last() matches Action::Finish(rep) ==> (rep.outcome matches Ok(b) ==> (read_flow::reply_meta(b) is Some
            ==> posts_reply_counts_all(stores[0].committed, plan, b))),
{
    if acts.last() matches Action::Finish(rep) && rep.outcome matches Ok(b) && read_flow::reply_meta(b) is Some {
        lemma_list_reply(flows, acts, evs, stores, plan);
        let j = evs.len() - 1;
        let items = flows[j]->Counting_items;
        match items {
            read_flow::Items::Posts(ps) => {
                let t0 = stores[0].committed;
                let body = acts.last()->Finish_0.outcome->Ok_0;
                assert(posts_window(t0, plan.subject, plan.limit, read_flow::plan_offset(plan) as i64, ps@));
                assert forall|i: int| 0 <= i < ps@.len() implies (#[trigger] ps@[i]).user_id == plan.subject by {
                    let x = ps@[i].id;
                }
                assert(posts_reply_counts_all(t0, plan, body));
            },
            _ => {},
        }
    }
}

} // verus!

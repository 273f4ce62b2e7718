//! The two shapes of read requests: a cached, paginated listing with its
//! total, and a cached lookup of one item. Each read handler starts one of
//! them with its own plan.
use crate::models::comment_model::Comment;
use crate::models::post_model::Post;
use crate::models::user_model::{User, UserResponse};
use crate::services::flow;
use crate::services::flow::{
    fail, fail_bare, fail_owned, fail_unexpected, Action, ApiError, Body, CacheStore, Event,
    Query, Reply, Stored, INTERNAL_SERVER_ERROR, NOT_FOUND,
};
use vstd::prelude::*;
use vstd::string::*;

verus! {

/// What a listing lists.
pub enum Listing {
    /// An account's posts, newest first.
    PostsBy,
    /// The accounts following an account.
    FollowersOf,
    /// The accounts an account follows.
    FollowingOf,
    /// Posts of the accounts an account follows, newest first.
    FeedOf,
    /// The comments on a post, newest first.
    CommentsOn,
}

/// How a listing request runs.
pub struct ListPlan {
    /// The account or post the listing is about.
    pub subject: u128,
    /// Page and page size as the request gave them.
    pub page: i64,
    pub limit: i64,
    /// Where the reply is cached, and read from first.
    pub cache_key: String,
    pub ttl_secs: u64,
    /// Where the total is cached as well, if anywhere.
    pub count_cache_key: Option<String>,
    pub listing: Listing,
    /// Whether the subject account is fetched first (404 when missing).
    pub fetch_owner: bool,
    /// Whether failures carry no message and a failed cache read is
    /// treated as a miss.
    pub quiet: bool,
}

/// The offset `(page - 1) * limit` of the window a plan asks for.
pub open spec fn plan_offset(plan: ListPlan) -> int {
    (plan.page - 1) * plan.limit
}

/// Whether computing the plan's offset stays within `i64`.
pub open spec fn plan_window_fits(plan: ListPlan) -> bool {
    &&& plan.page > i64::MIN
    &&& i64::MIN <= plan_offset(plan) <= i64::MAX
}

/// The statement that fetches the window a plan asks for.
pub open spec fn window_query(plan: ListPlan) -> Query {
    match plan.listing {
        Listing::PostsBy => Query::PostsBy { user: plan.subject, limit: plan.limit, offset: plan_offset(plan) as i64 },
        Listing::FollowersOf => Query::FollowersOf { user: plan.subject, limit: plan.limit, offset: plan_offset(plan) as i64 },
        Listing::FollowingOf => Query::FollowingOf { user: plan.subject, limit: plan.limit, offset: plan_offset(plan) as i64 },
        Listing::FeedOf => Query::FeedOf { user: plan.subject, limit: plan.limit, offset: plan_offset(plan) as i64 },
        Listing::CommentsOn => Query::CommentsOn { post: plan.subject, limit: plan.limit, offset: plan_offset(plan) as i64 },
    }
}

/// The statement that counts everything a plan lists.
pub open spec fn total_query(plan: ListPlan) -> Query {
    match plan.listing {
        Listing::PostsBy => Query::CountPostsBy(plan.subject),
        Listing::FollowersOf => Query::CountFollowers(plan.subject),
        Listing::FollowingOf => Query::CountFollowing(plan.subject),
        Listing::FeedOf => Query::CountFeedOf(plan.subject),
        Listing::CommentsOn => Query::CountCommentsOn(plan.subject),
    }
}

/// A fetched window.
pub enum Items {
    Posts(Vec<Post>),
    Users(Vec<User>),
    Comments(Vec<Comment>),
}

/// Whether a window of this kind answers a plan's window statement.
pub open spec fn items_fit(plan: ListPlan, items: Items) -> bool {
    match plan.listing {
        Listing::PostsBy => items is Posts,
        Listing::FeedOf => items is Posts,
        Listing::FollowersOf => items is Users,
        Listing::FollowingOf => items is Users,
        Listing::CommentsOn => items is Comments,
    }
}

/// The reply body of a listing with window `items` and total `total`.
pub open spec fn listing_body_is(
    body: Body,
    plan: ListPlan,
    owner: Option<User>,
    items: Items,
    total: i64,
) -> bool {
    match items {
        Items::Posts(posts) => if plan.listing is PostsBy && plan.fetch_owner {
            &&& owner matches Some(u)
            &&& body matches Body::Profile { user, posts: p, total: t, page, limit }
            &&& user == UserResponse::of(u)
            &&& p@ == posts@
            &&& t == total && page == plan.page && limit == plan.limit
        } else {
            &&& body matches Body::Posts { posts: p, total: t, page, limit }
            &&& p@ == posts@
            &&& t == total && page == plan.page && limit == plan.limit
        },
        Items::Users(users) => {
            &&& body matches Body::Follows { owner: o, followers, users: us, total: t, page, limit }
            &&& followers == (plan.listing is FollowersOf)
            &&& (match owner {
                Some(u) => o matches Some(pair) && pair.0 == u.id && pair.1 == u.username,
                None => o is None,
            })
            &&& us@.len() == users@.len()
            &&& forall|i: int| 0 <= i < users@.len() ==> us@[i] == UserResponse::of(#[trigger] users@[i])
            &&& t == total && page == plan.page && limit == plan.limit
        },
        Items::Comments(comments) => {
            &&& body matches Body::Comments { comments: c, total: t, page, limit }
            &&& c@ == comments@
            &&& t == total && page == plan.page && limit == plan.limit
        },
    }
}

/// The cache writes that accompany a listing's reply: the reply under the
/// plan's key, and the total under the count key when there is one, both
/// for the plan's lifetime.
pub open spec fn listing_stores_are(stores: Seq<CacheStore>, plan: ListPlan, total: i64) -> bool {
    &&& stores.len() == if plan.count_cache_key is Some { 2int } else { 1int }
    &&& stores[0].key@ == plan.cache_key@
    &&& stores[0].ttl_secs == plan.ttl_secs
    &&& stores[0].value is Response
    &&& (plan.count_cache_key matches Some(k) ==> stores[1].key@ == k@ && stores[1].ttl_secs
        == plan.ttl_secs && stores[1].value == Stored::Count(total))
}

/// A storage failure with message `m`, reported as the plan says.
pub open spec fn fails_as_plan_says(a: Action, plan: ListPlan, status: u16, m: Seq<char>) -> bool {
    if plan.quiet {
        flow::fails_bare(a, status)
    } else {
        flow::fails_with(a, status, m)
    }
}

/// Where a listing stands.
pub enum ListFlow {
    /// Asked the cache for the plan's key.
    Looking { plan: ListPlan },
    /// Asked for the subject account.
    FindingOwner { plan: ListPlan },
    /// Asked for the window.
    Listing { plan: ListPlan, owner: Option<User> },
    /// Asked for the total.
    Counting { plan: ListPlan, owner: Option<User>, items: Items },
    /// Replied.
    Finished,
}

fn fail_per_plan(quiet: bool, status: u16, m: String) -> (a: Action)
    ensures
        if quiet { flow::fails_bare(a, status) } else { flow::fails_with(a, status, m@) },
{
    if quiet {
        fail_bare(status)
    } else {
        fail_owned(status, m)
    }
}

fn window_of(plan: &ListPlan) -> (q: Query)
    requires
        plan_window_fits(*plan),
    ensures
        q == window_query(*plan),
{
    let offset = (plan.page - 1) * plan.limit;
    match plan.listing {
        Listing::PostsBy => Query::PostsBy { user: plan.subject, limit: plan.limit, offset },
        Listing::FollowersOf => Query::FollowersOf { user: plan.subject, limit: plan.limit, offset },
        Listing::FollowingOf => Query::FollowingOf { user: plan.subject, limit: plan.limit, offset },
        Listing::FeedOf => Query::FeedOf { user: plan.subject, limit: plan.limit, offset },
        Listing::CommentsOn => Query::CommentsOn { post: plan.subject, limit: plan.limit, offset },
    }
}

fn total_of(plan: &ListPlan) -> (q: Query)
    ensures
        q == total_query(*plan),
{
    match plan.listing {
        Listing::PostsBy => Query::CountPostsBy(plan.subject),
        Listing::FollowersOf => Query::CountFollowers(plan.subject),
        Listing::FollowingOf => Query::CountFollowing(plan.subject),
        Listing::FeedOf => Query::CountFeedOf(plan.subject),
        Listing::CommentsOn => Query::CountCommentsOn(plan.subject),
    }
}

/// The public views of `users`, in the same order.
pub fn responses_of(users: Vec<User>) -> (r: Vec<UserResponse>)
    ensures
        r@.len() == users@.len(),
        forall|i: int| 0 <= i < users@.len() ==> r@[i] == UserResponse::of(#[trigger] users@[i]),
{
    let mut rest = users;
    let mut out: Vec<UserResponse> = Vec::new();
    let ghost all = users@;
    while rest.len() > 0
        invariant
            out@.len() + rest@.len() == all.len(),
            rest@ == all.subrange(out@.len() as int, all.len() as int),
            forall|i: int| 0 <= i < out@.len() ==> out@[i] == UserResponse::of(#[trigger] all[i]),
        decreases rest@.len(),
    {
        let u = rest.remove(0);
        let ghost k = out@.len();
        assert(all[k as int] == u);
        out.push(UserResponse::from(u));
        assert(rest@ =~= all.subrange(out@.len() as int, all.len() as int));
    }
    out
}

fn listing_body(plan: &ListPlan, owner: Option<User>, items: Items, total: i64) -> (b: Body)
    requires
        items_fit(*plan, items),
        plan.listing is PostsBy && plan.fetch_owner ==> owner is Some,
    ensures
        listing_body_is(b, *plan, owner, items, total),
{
    match items {
        Items::Posts(posts) => {
            if matches!(plan.listing, Listing::PostsBy) && plan.fetch_owner {
                match owner {
                    Some(u) => Body::Profile {
                        user: UserResponse::from(u),
                        posts,
                        total,
                        page: plan.page,
                        limit: plan.limit,
                    },
                    None => Body::Posts { posts, total, page: plan.page, limit: plan.limit },
                }
            } else {
                Body::Posts { posts, total, page: plan.page, limit: plan.limit }
            }
        },
        Items::Users(users) => {
            let o = match owner {
                Some(u) => Some((u.id, u.username)),
                None => None,
            };
            Body::Follows {
                owner: o,
                followers: matches!(plan.listing, Listing::FollowersOf),
                users: responses_of(users),
                total,
                page: plan.page,
                limit: plan.limit,
            }
        },
        Items::Comments(comments) => Body::Comments {
            comments,
            total,
            page: plan.page,
            limit: plan.limit,
        },
    }
}

fn listing_stores(plan: &ListPlan, total: i64) -> (s: Vec<CacheStore>)
    ensures
        listing_stores_are(s@, *plan, total),
{
    let mut s: Vec<CacheStore> = Vec::new();
    s.push(CacheStore { key: plan.cache_key.clone(), ttl_secs: plan.ttl_secs, value: Stored::Response });
    match &plan.count_cache_key {
        Some(k) => s.push(CacheStore { key: k.clone(), ttl_secs: plan.ttl_secs, value: Stored::Count(total) }),
        None => {},
    }
    s
}

impl ListFlow {
    /// What answering `ev` leads to: the next state and action `r`.
    pub open spec fn steps_to(self, ev: Event, r: (ListFlow, Action)) -> bool {
        match self {
            ListFlow::Looking { plan } => match ev {
                Event::CacheHit => r.0 is Finished && flow::succeeds_with(r.1, Body::Cached),
                Event::CacheMiss => if plan.fetch_owner {
                    r.0 == (ListFlow::FindingOwner { plan }) && r.1 == Action::Run(Query::UserById(plan.subject))
                } else {
                    r.0 == (ListFlow::Listing { plan, owner: None }) && r.1 == Action::Run(window_query(plan))
                },
                Event::Failed(m) => if plan.quiet {
                    if plan.fetch_owner {
                        r.0 == (ListFlow::FindingOwner { plan }) && r.1 == Action::Run(Query::UserById(plan.subject))
                    } else {
                        r.0 == (ListFlow::Listing { plan, owner: None }) && r.1 == Action::Run(window_query(plan))
                    }
                } else {
                    r.0 is Finished && flow::fails_with(r.1, INTERNAL_SERVER_ERROR, m@)
                },
                _ => r.0 is Finished && flow::fails_unexpectedly(r.1),
            },
            ListFlow::FindingOwner { plan } => match ev {
                Event::MaybeUser(None) => r.0 is Finished && fails_as_plan_says(r.1, plan, NOT_FOUND, "User not found"@),
                Event::MaybeUser(Some(u)) => r.0 == (ListFlow::Listing { plan, owner: Some(u) }) && r.1 == Action::Run(window_query(plan)),
                Event::Failed(m) => r.0 is Finished && fails_as_plan_says(r.1, plan, INTERNAL_SERVER_ERROR, m@),
                _ => r.0 is Finished && flow::fails_unexpectedly(r.1),
            },
            ListFlow::Listing { plan, owner } => match ev {
                Event::Posts(p) => if items_fit(plan, Items::Posts(p)) {
                    r.0 == (ListFlow::Counting { plan, owner, items: Items::Posts(p) }) && r.1 == Action::Run(total_query(plan))
                } else {
                    r.0 is Finished && flow::fails_unexpectedly(r.1)
                },
                Event::Users(u) => if items_fit(plan, Items::Users(u)) {
                    r.0 == (ListFlow::Counting { plan, owner, items: Items::Users(u) }) && r.1 == Action::Run(total_query(plan))
                } else {
                    r.0 is Finished && flow::fails_unexpectedly(r.1)
                },
                Event::Comments(c) => if items_fit(plan, Items::Comments(c)) {
                    r.0 == (ListFlow::Counting { plan, owner, items: Items::Comments(c) }) && r.1 == Action::Run(total_query(plan))
                } else {
                    r.0 is Finished && flow::fails_unexpectedly(r.1)
                },
                Event::Failed(m) => r.0 is Finished && fails_as_plan_says(r.1, plan, INTERNAL_SERVER_ERROR, m@),
                _ => r.0 is Finished && flow::fails_unexpectedly(r.1),
            },
            ListFlow::Counting { plan, owner, items } => r.0 is Finished && match ev {
                Event::Count(total) => {
                    &&& r.1 matches Action::Finish(rep)
                    &&& rep.outcome matches Ok(body)
                    &&& listing_body_is(body, plan, owner, items, total)
                    &&& listing_stores_are(rep.stores@, plan, total)
                },
                Event::Failed(m) => fails_as_plan_says(r.1, plan, INTERNAL_SERVER_ERROR, m@),
                _ => flow::fails_unexpectedly(r.1),
            },
            ListFlow::Finished => true,
        }
    }

    /// Starts a listing by asking the cache for the plan's key.
    pub fn start(plan: ListPlan) -> (r: (ListFlow, Action))
        ensures
            r.1 matches Action::LookupCache(k) && k@ == plan.cache_key@,
            r.0 == (ListFlow::Looking { plan }),
    {
        let key = plan.cache_key.clone();
        (ListFlow::Looking { plan }, Action::LookupCache(key))
    }

    /// Whether answering with `ev` makes the flow compute the offset of
    /// its window.
    pub open spec fn computes_offset(self, ev: Event) -> bool {
        match self {
            ListFlow::Looking { plan } => !plan.fetch_owner && (ev is CacheMiss || (ev is Failed
                && plan.quiet)),
            ListFlow::FindingOwner { plan } => ev matches Event::MaybeUser(Some(_)),
            _ => false,
        }
    }

    /// Whether answering with `ev` makes the flow compute the offset of its
    /// window; the driver checks `window_fits` first, since the computation
    /// overflows otherwise.
    pub fn will_compute_offset(&self, ev: &Event) -> (r: bool)
        ensures
            r == self.computes_offset(*ev),
    {
        match self {
            ListFlow::Looking { plan } => !plan.fetch_owner && match ev {
                Event::CacheMiss => true,
                Event::Failed(_) => plan.quiet,
                _ => false,
            },
            ListFlow::FindingOwner { plan } => match ev {
                Event::MaybeUser(Some(_)) => true,
                _ => false,
            },
            _ => false,
        }
    }

    /// The flow's plan, if it has one, has a window whose offset fits.
    pub open spec fn window_fits_spec(self) -> bool {
        match self {
            ListFlow::Looking { plan } => plan_window_fits(plan),
            ListFlow::FindingOwner { plan } => plan_window_fits(plan),
            ListFlow::Listing { plan, .. } => plan_window_fits(plan),
            ListFlow::Counting { plan, .. } => plan_window_fits(plan),
            ListFlow::Finished => true,
        }
    }

    /// Whether the offset of the flow's window fits an `i64`.
    pub fn window_fits(&self) -> (r: bool)
        ensures
            r == self.window_fits_spec(),
    {
        let plan = match self {
            ListFlow::Looking { plan } => plan,
            ListFlow::FindingOwner { plan } => plan,
            ListFlow::Listing { plan, .. } => plan,
            ListFlow::Counting { plan, .. } => plan,
            ListFlow::Finished => return true,
        };
        let p: i128 = plan.page as i128 - 1;
        let l: i128 = plan.limit as i128;
        assert(-0x4000_0000_0000_0000_8000_0000_0000_0000 <= p * l <= 0x4000_0000_0000_0000_8000_0000_0000_0000) by (nonlinear_arith)
            requires
                -0x8000_0000_0000_0001 <= p <= 0x7fff_ffff_ffff_fffe,
                -0x8000_0000_0000_0000 <= l <= 0x7fff_ffff_ffff_ffff;
        let o: i128 = p * l;
        plan.page > i64::MIN && -0x8000_0000_0000_0000i128 <= o && o <= 0x7fff_ffff_ffff_ffffi128
    }

    /// A window, once fetched, has the kind its plan asked for.
    pub open spec fn wf(self) -> bool {
        match self {
            ListFlow::Listing { plan, owner } => plan.listing is PostsBy && plan.fetch_owner
                ==> owner is Some,
            ListFlow::Counting { plan, owner, items } => items_fit(plan, items) && (
            plan.listing is PostsBy && plan.fetch_owner ==> owner is Some),
            _ => true,
        }
    }

    /// Takes the answer to the last action. A cache hit is replied as found,
    /// with no database access. On a miss the subject account is fetched
    /// when the plan asks (404 when missing), then the window and the total;
    /// the reply carries them with the plan's page and size, and is cached
    /// under the plan's key (the total too, under the count key).
    pub fn resume(self, ev: Event) -> (r: (ListFlow, Action))
        requires
            self.wf(),
            !(self is Finished),
            self.computes_offset(ev) ==> self.window_fits_spec(),
        ensures
            r.0.wf(),
            self.steps_to(ev, r),
    {
        match self {
            ListFlow::Looking { plan } => match ev {
                Event::CacheHit => (ListFlow::Finished, flow::succeed(Body::Cached)),
                Event::CacheMiss => Self::after_miss(plan),
                Event::Failed(m) => {
                    if plan.quiet {
                        Self::after_miss(plan)
                    } else {
                        (ListFlow::Finished, fail_owned(INTERNAL_SERVER_ERROR, m))
                    }
                },
                _ => (ListFlow::Finished, fail_unexpected()),
            },
            ListFlow::FindingOwner { plan } => match ev {
                Event::MaybeUser(found) => match found {
                    None => {
                        let a = fail_per_plan(plan.quiet, NOT_FOUND, String::from_str("User not found"));
                        (ListFlow::Finished, a)
                    },
                    Some(u) => {
                        let q = window_of(&plan);
                        (ListFlow::Listing { plan, owner: Some(u) }, Action::Run(q))
                    },
                },
                Event::Failed(m) => (ListFlow::Finished, fail_per_plan(plan.quiet, INTERNAL_SERVER_ERROR, m)),
                _ => (ListFlow::Finished, fail_unexpected()),
            },
            ListFlow::Listing { plan, owner } => match ev {
                Event::Posts(p) => Self::after_window(plan, owner, Items::Posts(p)),
                Event::Users(u) => Self::after_window(plan, owner, Items::Users(u)),
                Event::Comments(c) => Self::after_window(plan, owner, Items::Comments(c)),
                Event::Failed(m) => (ListFlow::Finished, fail_per_plan(plan.quiet, INTERNAL_SERVER_ERROR, m)),
                _ => (ListFlow::Finished, fail_unexpected()),
            },
            ListFlow::Counting { plan, owner, items } => match ev {
                Event::Count(total) => {
                    let stores = listing_stores(&plan, total);
                    let body = listing_body(&plan, owner, items, total);
                    (ListFlow::Finished, Action::Finish(Reply { outcome: Ok(body), stores }))
                },
                Event::Failed(m) => (ListFlow::Finished, fail_per_plan(plan.quiet, INTERNAL_SERVER_ERROR, m)),
                _ => (ListFlow::Finished, fail_unexpected()),
            },
            ListFlow::Finished => (ListFlow::Finished, fail_unexpected()),
        }
    }

    fn after_miss(plan: ListPlan) -> (r: (ListFlow, Action))
        requires
            !plan.fetch_owner ==> plan_window_fits(plan),
        ensures
            r.0.wf(),
            if plan.fetch_owner {
                r.0 == (ListFlow::FindingOwner { plan }) && r.1 == Action::Run(Query::UserById(plan.subject))
            } else {
                r.0 == (ListFlow::Listing { plan, owner: None }) && r.1 == Action::Run(window_query(plan))
            },
    {
        if plan.fetch_owner {
            let s = plan.subject;
            (ListFlow::FindingOwner { plan }, Action::Run(Query::UserById(s)))
        } else {
            let q = window_of(&plan);
            (ListFlow::Listing { plan, owner: None }, Action::Run(q))
        }
    }

    fn after_window(plan: ListPlan, owner: Option<User>, items: Items) -> (r: (ListFlow, Action))
        requires
            plan.listing is PostsBy && plan.fetch_owner ==> owner is Some,
        ensures
            r.0.wf(),
            if items_fit(plan, items) {
                r.0 == (ListFlow::Counting { plan, owner, items }) && r.1 == Action::Run(total_query(plan))
            } else {
                r.0 is Finished && flow::fails_unexpectedly(r.1)
            },
    {
        let fits = match (&plan.listing, &items) {
            (Listing::PostsBy, Items::Posts(_)) => true,
            (Listing::FeedOf, Items::Posts(_)) => true,
            (Listing::FollowersOf, Items::Users(_)) => true,
            (Listing::FollowingOf, Items::Users(_)) => true,
            (Listing::CommentsOn, Items::Comments(_)) => true,
            _ => false,
        };
        if fits {
            let q = total_of(&plan);
            (ListFlow::Counting { plan, owner, items }, Action::Run(q))
        } else {
            (ListFlow::Finished, fail_unexpected())
        }
    }
}

/// What a lookup fetches on a cache miss.
pub enum Lookup {
    /// The account with this identifier; replied as an account.
    UserById(u128),
    /// The account with this username; replied as an account.
    UserByUsername(String),
    /// The post with this identifier; replied as a post.
    PostById(u128),
    /// The like count of this post; replied as `{"post_id", "likes"}`.
    LikesOf(u128),
}

/// How a lookup request runs.
pub struct ItemPlan {
    /// Where the reply is cached, and read from first.
    pub cache_key: String,
    pub lookup: Lookup,
    /// Message of the 404 reply when nothing is found.
    pub missing_message: String,
    /// Lifetime of the cached reply; no cache write when absent.
    pub ttl_secs: Option<u64>,
}

/// The statement a lookup runs on a cache miss.
pub open spec fn lookup_query(l: Lookup) -> Query {
    match l {
        Lookup::UserById(id) => Query::UserById(id),
        Lookup::UserByUsername(n) => Query::UserByUsername(n),
        Lookup::PostById(id) => Query::PostById(id),
        Lookup::LikesOf(id) => Query::LikesCountOf(id),
    }
}

/// The reply body for what a lookup found, or `None` when the answer found
/// nothing or has the wrong kind.
pub open spec fn found_body(l: Lookup, ev: Event) -> Option<Body> {
    match l {
        Lookup::UserById(_) => match ev {
            Event::MaybeUser(Some(u)) => Some(Body::User(UserResponse::of(u))),
            _ => None,
        },
        Lookup::UserByUsername(_) => match ev {
            Event::MaybeUser(Some(u)) => Some(Body::User(UserResponse::of(u))),
            _ => None,
        },
        Lookup::PostById(_) => match ev {
            Event::MaybePost(Some(p)) => Some(Body::Post(p)),
            _ => None,
        },
        Lookup::LikesOf(id) => match ev {
            Event::MaybeCount(Some(n)) => Some(Body::LikeCount { post_id: id, likes: n }),
            _ => None,
        },
    }
}

/// Whether `ev` is the "nothing found" answer to a lookup.
pub open spec fn found_nothing(l: Lookup, ev: Event) -> bool {
    match l {
        Lookup::UserById(_) => ev == Event::MaybeUser(None),
        Lookup::UserByUsername(_) => ev == Event::MaybeUser(None),
        Lookup::PostById(_) => ev == Event::MaybePost(None),
        Lookup::LikesOf(_) => ev == Event::MaybeCount(None),
    }
}

/// Where a lookup stands.
pub enum ItemFlow {
    /// Asked the cache for the plan's key.
    Looking { plan: ItemPlan },
    /// Asked the database.
    Fetching { plan: ItemPlan },
    /// Replied.
    Finished,
}

fn lookup_of(l: &Lookup) -> (q: Query)
    ensures
        q == lookup_query(*l),
{
    match l {
        Lookup::UserById(id) => Query::UserById(*id),
        Lookup::UserByUsername(n) => Query::UserByUsername(n.clone()),
        Lookup::PostById(id) => Query::PostById(*id),
        Lookup::LikesOf(id) => Query::LikesCountOf(*id),
    }
}

impl ItemFlow {
    /// Starts a lookup by asking the cache for the plan's key.
    pub fn start(plan: ItemPlan) -> (r: (ItemFlow, Action))
        ensures
            r.1 matches Action::LookupCache(k) && k@ == plan.cache_key@,
            r.0 == (ItemFlow::Looking { plan }),
    {
        let key = plan.cache_key.clone();
        (ItemFlow::Looking { plan }, Action::LookupCache(key))
    }

    /// Takes the answer to the last action. A cache hit is replied as found;
    /// a failed cache read ends the request with 500. On a miss the item is
    /// fetched: nothing found ends the request with 404 and the plan's
    /// message; a found item is replied, and cached under the plan's key
    /// when the plan names a lifetime.
    pub fn resume(self, ev: Event) -> (r: (ItemFlow, Action))
        requires
            !(self is Finished),
        ensures
            match self {
                ItemFlow::Looking { plan } => match ev {
                    Event::CacheHit => r.0 is Finished && flow::succeeds_with(r.1, Body::Cached),
                    Event::CacheMiss => r.0 == (ItemFlow::Fetching { plan }) && r.1 == Action::Run(lookup_query(plan.lookup)),
                    Event::Failed(m) => r.0 is Finished && flow::fails_with(r.1, INTERNAL_SERVER_ERROR, m@),
                    _ => r.0 is Finished && flow::fails_unexpectedly(r.1),
                },
                ItemFlow::Fetching { plan } => r.0 is Finished && if found_nothing(plan.lookup, ev) {
                    flow::fails_with(r.1, NOT_FOUND, plan.missing_message@)
                } else if ev is Failed {
                    flow::fails_as_storage(r.1, ev)
                } else {
                    match found_body(plan.lookup, ev) {
                        Some(b) => {
                            &&& r.1 matches Action::Finish(rep)
                            &&& rep.outcome == Ok::<Body, ApiError>(b)
                            &&& match plan.ttl_secs {
                                Some(t) => rep.stores@.len() == 1 && rep.stores@[0].key@ == plan.cache_key@
                                    && rep.stores@[0].ttl_secs == t && rep.stores@[0].value is Response,
                                None => rep.stores@.len() == 0,
                            }
                        },
                        None => flow::fails_unexpectedly(r.1),
                    }
                },
                ItemFlow::Finished => true,
            },
    {
        match self {
            ItemFlow::Looking { plan } => match ev {
                Event::CacheHit => (ItemFlow::Finished, flow::succeed(Body::Cached)),
                Event::CacheMiss => {
                    let q = lookup_of(&plan.lookup);
                    (ItemFlow::Fetching { plan }, Action::Run(q))
                },
                Event::Failed(m) => (ItemFlow::Finished, fail_owned(INTERNAL_SERVER_ERROR, m)),
                _ => (ItemFlow::Finished, fail_unexpected()),
            },
            ItemFlow::Fetching { plan } => {
                let found: Option<Body> = match (&plan.lookup, ev) {
                    (Lookup::UserById(_), Event::MaybeUser(Some(u))) => Some(Body::User(UserResponse::from(u))),
                    (Lookup::UserByUsername(_), Event::MaybeUser(Some(u))) => Some(Body::User(UserResponse::from(u))),
                    (Lookup::PostById(_), Event::MaybePost(Some(p))) => Some(Body::Post(p)),
                    (Lookup::LikesOf(id), Event::MaybeCount(Some(n))) => Some(Body::LikeCount { post_id: *id, likes: n }),
                    (Lookup::UserById(_), Event::MaybeUser(None)) => None,
                    (Lookup::UserByUsername(_), Event::MaybeUser(None)) => None,
                    (Lookup::PostById(_), Event::MaybePost(None)) => None,
                    (Lookup::LikesOf(_), Event::MaybeCount(None)) => None,
                    (_, Event::Failed(m)) => {
                        return (ItemFlow::Finished, fail_owned(INTERNAL_SERVER_ERROR, m));
                    },
                    _ => {
                        return (ItemFlow::Finished, fail_unexpected());
                    },
                };
                match found {
                    None => (ItemFlow::Finished, fail_owned(NOT_FOUND, plan.missing_message)),
                    Some(b) => {
                        let mut stores: Vec<CacheStore> = Vec::new();
                        match plan.ttl_secs {
                            Some(t) => stores.push(CacheStore { key: plan.cache_key, ttl_secs: t, value: Stored::Response }),
                            None => {},
                        }
                        (ItemFlow::Finished, Action::Finish(Reply { outcome: Ok(b), stores }))
                    },
                }
            },
            ItemFlow::Finished => (ItemFlow::Finished, fail_unexpected()),
        }
    }
}

/// The view of an optional text.
pub open spec fn opt_view(o: Option<String>) -> Option<Seq<char>> {
    match o {
        Some(s) => Some(s@),
        None => None,
    }
}

/// `r` starts a listing with exactly this plan.
pub open spec fn starts_listing(
    r: (ListFlow, Action),
    subject: u128,
    page: i64,
    limit: i64,
    key: Seq<char>,
    ttl: u64,
    count_key: Option<Seq<char>>,
    listing: Listing,
    fetch_owner: bool,
    quiet: bool,
) -> bool {
    &&& r.0 matches ListFlow::Looking { plan }
    &&& plan.subject == subject
    &&& plan.page == page
    &&& plan.limit == limit
    &&& plan.cache_key@ == key
    &&& plan.ttl_secs == ttl
    &&& opt_view(plan.count_cache_key) == count_key
    &&& plan.listing == listing
    &&& plan.fetch_owner == fetch_owner
    &&& plan.quiet == quiet
    &&& r.1 matches Action::LookupCache(k)
    &&& k@ == key
}

/// Starts a listing with the plan these fields make up.
pub fn start_listing(
    subject: u128,
    page: i64,
    limit: i64,
    cache_key: String,
    ttl_secs: u64,
    count_cache_key: Option<String>,
    listing: Listing,
    fetch_owner: bool,
    quiet: bool,
) -> (r: (ListFlow, Action))
    ensures
        starts_listing(r, subject, page, limit, cache_key@, ttl_secs, opt_view(count_cache_key), listing, fetch_owner, quiet),
{
    ListFlow::start(
        ListPlan { subject, page, limit, cache_key, ttl_secs, count_cache_key, listing, fetch_owner, quiet },
    )
}

/// `r` starts a lookup with exactly this plan.
pub open spec fn starts_lookup(r: (ItemFlow, Action), key: Seq<char>, lookup: Lookup, missing: Seq<char>, ttl: Option<u64>) -> bool {
    &&& r.0 matches ItemFlow::Looking { plan }
    &&& plan.cache_key@ == key
    &&& plan.lookup == lookup
    &&& plan.missing_message@ == missing
    &&& plan.ttl_secs == ttl
    &&& r.1 matches Action::LookupCache(k)
    &&& k@ == key
}

/// Starts a lookup with the plan these fields make up.
pub fn start_lookup(cache_key: String, lookup: Lookup, missing: &str, ttl_secs: Option<u64>) -> (r: (ItemFlow, Action))
    ensures
        starts_lookup(r, cache_key@, lookup, missing@, ttl_secs),
{
    ItemFlow::start(ItemPlan { cache_key, lookup, missing_message: String::from_str(missing), ttl_secs })
}

/// The page or page size of a request as it appears in a cache key:
/// truncated to 32 bits, as `i64 as u32` does.
pub fn key_number(v: i64) -> (r: u32)
    ensures
        r == v as u32,
{
    #[verifier::truncate]
    (v as u32)
}

/// Where the window statement `q` starts, if it is one.
pub open spec fn window_start(q: Query) -> Option<int> {
    match q {
        Query::PostsBy { offset, .. } => Some(offset as int),
        Query::FollowersOf { offset, .. } => Some(offset as int),
        Query::FollowingOf { offset, .. } => Some(offset as int),
        Query::FeedOf { offset, .. } => Some(offset as int),
        Query::CommentsOn { offset, .. } => Some(offset as int),
        _ => None,
    }
}

/// How many rows the window statement `q` asks for, if it is one.
pub open spec fn window_size(q: Query) -> Option<int> {
    match q {
        Query::PostsBy { limit, .. } => Some(limit as int),
        Query::FollowersOf { limit, .. } => Some(limit as int),
        Query::FollowingOf { limit, .. } => Some(limit as int),
        Query::FeedOf { limit, .. } => Some(limit as int),
        Query::CommentsOn { limit, .. } => Some(limit as int),
        _ => None,
    }
}

/// The plan `plan` asks for page `page` instead of its own.
pub open spec fn at_page(plan: ListPlan, page: i64) -> ListPlan {
    ListPlan {
        subject: plan.subject,
        page,
        limit: plan.limit,
        cache_key: plan.cache_key,
        ttl_secs: plan.ttl_secs,
        count_cache_key: plan.count_cache_key,
        listing: plan.listing,
        fetch_owner: plan.fetch_owner,
        quiet: plan.quiet,
    }
}

/// Pages are windows laid end to end: the first page's window starts at the
/// first row, every window asks for the plan's page size, and the window of
/// page `p + 1` starts exactly where that of page `p` ends, whatever is
/// listed.
pub proof fn lemma_windows_follow_pages(plan: ListPlan)
    requires
        1 <= plan.page < i64::MAX,
        plan_window_fits(plan),
        plan_window_fits(at_page(plan, (plan.page + 1) as i64)),
    ensures
        window_size(window_query(plan)) == Some(plan.limit as int),
        plan.page == 1 ==> window_start(window_query(plan)) == Some(0int),
        window_start(window_query(at_page(plan, (plan.page + 1) as i64))) matches Some(next)
            && window_start(window_query(plan)) matches Some(this) && next == this + plan.limit,
{
    let next = at_page(plan, (plan.page + 1) as i64);
    assert(plan_offset(next) == plan_offset(plan) + plan.limit) by (nonlinear_arith)
        requires
            plan_offset(next) == (plan.page + 1 - 1) * plan.limit,
            plan_offset(plan) == (plan.page - 1) * plan.limit,
    ;
    if plan.page == 1 {
        assert(plan_offset(plan) == 0) by (nonlinear_arith)
            requires
                plan.page == 1,
                plan_offset(plan) == (plan.page - 1) * plan.limit,
        ;
    }
}

/// Whether the window statement `q` and the total statement `t` are about
/// the same rows: the posts of one account, its followers, the accounts it
/// follows, its feed, or the comments on one post.
pub open spec fn same_rows(q: Query, t: Query) -> bool {
    match q {
        Query::PostsBy { user, .. } => t == Query::CountPostsBy(user),
        Query::FollowersOf { user, .. } => t == Query::CountFollowers(user),
        Query::FollowingOf { user, .. } => t == Query::CountFollowing(user),
        Query::FeedOf { user, .. } => t == Query::CountFeedOf(user),
        Query::CommentsOn { post, .. } => t == Query::CountCommentsOn(post),
        _ => false,
    }
}

/// A listing's window and its total count the same rows of its subject, so
/// a reply's page is part of what its total counts.
pub proof fn lemma_window_and_total_agree(plan: ListPlan)
    ensures
        same_rows(window_query(plan), total_query(plan)),
        total_query(plan) == match plan.listing {
            Listing::PostsBy => Query::CountPostsBy(plan.subject),
            Listing::FollowersOf => Query::CountFollowers(plan.subject),
            Listing::FollowingOf => Query::CountFollowing(plan.subject),
            Listing::FeedOf => Query::CountFeedOf(plan.subject),
            Listing::CommentsOn => Query::CountCommentsOn(plan.subject),
        },
{
}

/// The total, page and page size a listing reply carries, if it is one.
pub open spec fn reply_meta(b: Body) -> Option<(i64, i64, i64)> {
    match b {
        Body::Profile { total, page, limit, .. } => Some((total, page, limit)),
        Body::Follows { total, page, limit, .. } => Some((total, page, limit)),
        Body::Posts { total, page, limit, .. } => Some((total, page, limit)),
        Body::Comments { total, page, limit, .. } => Some((total, page, limit)),
        _ => None,
    }
}

/// Whether reply `b` lists exactly the fetched window `items`, in order:
/// the same posts or comments, or the public views of the same accounts.
pub open spec fn reply_lists(b: Body, items: Items) -> bool {
    match items {
        Items::Posts(ps) => match b {
            Body::Profile { posts, .. } => posts@ == ps@,
            Body::Posts { posts, .. } => posts@ == ps@,
            _ => false,
        },
        Items::Comments(cs) => b matches Body::Comments { comments, .. } && comments@ == cs@,
        Items::Users(us) => b matches Body::Follows { users, .. } && users@.len() == us@.len() && forall|i: int|
            0 <= i < us@.len() ==> (#[trigger] users@[i]).id == us@[i].id && users@[i].username == us@[i].username,
    }
}

/// A listing's reply carries, as its total, the count its total statement
/// answered (however long the page is), with the plan's page and page
/// size; it lists exactly the window that was fetched, and is cached under
/// the plan's key.
pub proof fn lemma_reply_total_is_the_count(
    plan: ListPlan,
    owner: Option<User>,
    items: Items,
    n: i64,
    r: (ListFlow, Action),
)
    requires
        (ListFlow::Counting { plan, owner, items }).wf(),
        (ListFlow::Counting { plan, owner, items }).steps_to(Event::Count(n), r),
    ensures
        r.1 matches Action::Finish(rep) && rep.outcome matches Ok(b) && reply_meta(b) == Some((n, plan.page, plan.limit))
            && reply_lists(b, items) && rep.stores@.len() >= 1 && rep.stores@[0].key@ == plan.cache_key@,
{
    if let Items::Users(us) = items {
        let b = r.1->Finish_0.outcome->Ok_0;
        let users = b->Follows_users;
        assert forall|i: int| 0 <= i < us@.len() implies (#[trigger] users@[i]).id == us@[i].id
            && users@[i].username == us@[i].username by {
            assert(users@[i] == UserResponse::of(us@[i]));
        }
    }
}

} // verus!

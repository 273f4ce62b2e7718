use social_media_app::models::post_model::Post;
use social_media_app::models::user_model::User;
use social_media_app::services::flow::{Action, Body, Event, Query, Stored};
use social_media_app::services::like_service::get_likes;
use social_media_app::services::post_service::{get_feed, get_my_posts, get_post_by_id, get_posts_from_user};
use social_media_app::services::comment_service::get_comments;
use social_media_app::services::read_flow::{ItemFlow, ListFlow};
use social_media_app::services::user_service::{
    get_followers, get_following, get_my_followers, get_my_following, get_user,
    get_user_by_username, my_profile, profile,
};
use social_media_app::utils::ids::uuid_to_text;
use social_media_app::utils::jwt::Claims;
use social_media_app::utils::pagination::PaginationParams;

const ME: u128 = 0x1111_2222_3333_4444_5555_6666_7777_8888;
const YOU: u128 = 0x67e5_5044_10b1_426f_9247_bb68_0e5f_e0c8;
const ME_TEXT: &str = "11112222-3333-4444-5555-666677778888";
const YOU_TEXT: &str = "67e55044-10b1-426f-9247-bb680e5fe0c8";

fn claims_for(id: u128) -> Claims {
    Claims { id: uuid_to_text(id), sub: uuid_to_text(id), exp: 0 }
}

fn pages(page: Option<i64>, limit: Option<i64>) -> PaginationParams {
    PaginationParams { page, limit, with_count: false }
}

fn user(id: u128, username: &str) -> User {
    User {
        id,
        username: username.to_string(),
        email: "u@x.y".to_string(),
        name: None,
        password_hash: "h".to_string(),
        birthday: None,
        created_at: 0,
    }
}

fn post(id: u128, author: u128) -> Post {
    Post { id, title: "t".to_string(), body: "b".to_string(), user_id: author, likes_count: 0, created_at: 0 }
}

fn lookup_key(a: &Action) -> String {
    match a {
        Action::LookupCache(k) => k.clone(),
        _ => panic!("expected a cache lookup"),
    }
}

fn error_of(a: &Action) -> (u16, Option<String>) {
    match a {
        Action::Finish(r) => match &r.outcome {
            Err(e) => (e.status, e.message.clone()),
            Ok(_) => panic!("expected an error reply"),
        },
        _ => panic!("expected a reply"),
    }
}

#[test]
fn feed_is_read_from_the_cache_first() {
    let (f, a) = get_feed(pages(Some(2), Some(5)), Ok(claims_for(ME)));
    assert_eq!(lookup_key(&a), format!("feed:{}:p2:l5", ME_TEXT));
    let (f, a) = f.resume(Event::CacheHit);
    assert!(matches!(f, ListFlow::Finished));
    match &a {
        Action::Finish(r) => {
            assert!(matches!(r.outcome, Ok(Body::Cached)));
            assert!(r.stores.is_empty());
        },
        _ => panic!("expected a reply"),
    }
}

#[test]
fn feed_miss_fetches_window_and_total_and_caches_them() {
    let (f, _) = get_feed(pages(Some(3), Some(5)), Ok(claims_for(ME)));
    assert!(f.window_fits());
    assert!(f.will_compute_offset(&Event::CacheMiss));
    let (f, a) = f.resume(Event::CacheMiss);
    assert!(matches!(a, Action::Run(Query::FeedOf { user, limit: 5, offset: 10 }) if user == ME));
    let (f, a) = f.resume(Event::Posts(vec![post(1, YOU), post(2, YOU)]));
    assert!(matches!(a, Action::Run(Query::CountFeedOf(u)) if u == ME));
    let (f, a) = f.resume(Event::Count(12));
    assert!(matches!(f, ListFlow::Finished));
    match &a {
        Action::Finish(r) => {
            match &r.outcome {
                Ok(Body::Posts { posts, total, page, limit }) => {
                    assert_eq!(posts.len(), 2);
                    assert_eq!((*total, *page, *limit), (12, 3, 5));
                },
                _ => panic!("expected posts"),
            }
            assert_eq!(r.stores.len(), 1);
            assert_eq!(r.stores[0].key, format!("feed:{}:p3:l5", ME_TEXT));
            assert_eq!(r.stores[0].ttl_secs, 30);
            assert!(matches!(r.stores[0].value, Stored::Response));
        },
        _ => panic!("expected a reply"),
    }
}

#[test]
fn feed_reports_a_failed_cache_read() {
    let (f, _) = get_feed(pages(None, None), Ok(claims_for(ME)));
    let (_, a) = f.resume(Event::Failed("redis down".to_string()));
    assert_eq!(error_of(&a), (500, Some("redis down".to_string())));
    let (_, a) = get_feed(pages(None, None), Err(401));
    assert_eq!(error_of(&a), (401, Some("Unauthorized".to_string())));
}

#[test]
fn page_numbers_are_taken_as_u32_in_keys() {
    let (_, a) = get_my_posts(pages(Some(4294967297), Some(-1)), Ok(claims_for(ME)));
    assert_eq!(lookup_key(&a), format!("user:posts:{}:p1:l4294967295", ME_TEXT));
}

#[test]
fn an_overflowing_window_is_detected() {
    let (f, _) = get_feed(pages(Some(i64::MAX), Some(100)), Ok(claims_for(ME)));
    assert!(!f.window_fits());
    let (f, _) = get_feed(pages(Some(i64::MIN), Some(0)), Ok(claims_for(ME)));
    assert!(!f.window_fits());
}

#[test]
fn my_profile_ignores_a_failed_cache_read() {
    let (f, a) = my_profile(pages(Some(-1), None), Ok(claims_for(ME)));
    assert_eq!(lookup_key(&a), format!("user:profile:{}:p-1:l10", ME_TEXT));
    let (f, a) = f.resume(Event::Failed("redis down".to_string()));
    assert!(matches!(a, Action::Run(Query::UserById(u)) if u == ME));
    let (f, a) = f.resume(Event::MaybeUser(Some(user(ME, "ana_banana"))));
    assert!(matches!(a, Action::Run(Query::PostsBy { user, limit: 10, offset: -20 }) if user == ME));
    let (f, _) = f.resume(Event::Posts(vec![post(1, ME)]));
    let (_, a) = f.resume(Event::Count(1));
    match &a {
        Action::Finish(r) => match &r.outcome {
            Ok(Body::Profile { user, posts, total, page, limit }) => {
                assert_eq!(user.id, ME);
                assert_eq!(posts.len(), 1);
                assert_eq!((*total, *page, *limit), (1, -1, 10));
                assert_eq!(r.stores[0].ttl_secs, 60);
            },
            _ => panic!("expected a profile"),
        },
        _ => panic!("expected a reply"),
    }
}

#[test]
fn profile_errors_carry_no_message() {
    let (_, a) = my_profile(pages(None, None), Err(401));
    assert_eq!(error_of(&a), (401, None));
    let bad = Claims { id: "x".to_string(), sub: "x".to_string(), exp: 0 };
    let (_, a) = my_profile(pages(None, None), Ok(bad));
    assert_eq!(error_of(&a), (400, None));
    let (f, a) = profile(YOU, pages(None, None), Ok(claims_for(ME)));
    assert_eq!(lookup_key(&a), format!("user:profile:{}:p1:l10", YOU_TEXT));
    let (f, _) = f.resume(Event::CacheMiss);
    let (_, a) = f.resume(Event::MaybeUser(None));
    assert_eq!(error_of(&a), (404, None));
}

#[test]
fn my_followers_lead_with_the_account_and_cache_the_count() {
    let (f, a) = get_my_followers(pages(None, None), Ok(claims_for(ME)));
    assert_eq!(lookup_key(&a), format!("followers:{}:p1:l10", ME_TEXT));
    let (f, _) = f.resume(Event::CacheMiss);
    let (f, a) = f.resume(Event::MaybeUser(Some(user(ME, "ana_banana"))));
    assert!(matches!(a, Action::Run(Query::FollowersOf { user, limit: 10, offset: 0 }) if user == ME));
    let (f, a) = f.resume(Event::Users(vec![user(YOU, "bob_builder")]));
    assert!(matches!(a, Action::Run(Query::CountFollowers(u)) if u == ME));
    let (_, a) = f.resume(Event::Count(1));
    match &a {
        Action::Finish(r) => {
            match &r.outcome {
                Ok(Body::Follows { owner, followers, users, total, .. }) => {
                    assert_eq!(owner.clone(), Some((ME, "ana_banana".to_string())));
                    assert!(*followers);
                    assert_eq!(users[0].username, "bob_builder");
                    assert_eq!(*total, 1);
                },
                _ => panic!("expected follows"),
            }
            assert_eq!(r.stores.len(), 2);
            assert_eq!(r.stores[1].key, format!("followers:count:{}", ME_TEXT));
            assert!(matches!(r.stores[1].value, Stored::Count(1)));
        },
        _ => panic!("expected a reply"),
    }
}

#[test]
fn my_following_and_others_lists() {
    let (f, a) = get_my_following(pages(Some(2), Some(3)), Ok(claims_for(ME)));
    assert_eq!(lookup_key(&a), format!("following:{}:p2:l3", ME_TEXT));
    let (f, _) = f.resume(Event::CacheMiss);
    let (_, a) = f.resume(Event::MaybeUser(None));
    assert_eq!(error_of(&a), (404, Some("User not found".to_string())));
    let (f, a) = get_followers(YOU, pages(None, None), Ok(claims_for(ME)));
    assert_eq!(lookup_key(&a), format!("followers:{}:p1:l10", YOU_TEXT));
    let (_, a) = f.resume(Event::CacheMiss);
    assert!(matches!(a, Action::Run(Query::FollowersOf { user, .. }) if user == YOU));
    let (f, a) = get_following(YOU, pages(None, None), Ok(claims_for(ME)));
    assert_eq!(lookup_key(&a), format!("following:{}:p1:l10", YOU_TEXT));
    let (f, _) = f.resume(Event::CacheMiss);
    let (_, a) = f.resume(Event::Posts(vec![]));
    assert_eq!(error_of(&a), (500, Some("unexpected answer from storage".to_string())));
}

#[test]
fn posts_of_a_user_and_comments_use_their_keys() {
    let (_, a) = get_posts_from_user(YOU, pages(None, None), Ok(claims_for(ME)));
    assert_eq!(lookup_key(&a), format!("user:posts:{}:p1:l10", YOU_TEXT));
    let (f, a) = get_comments(YOU, pages(None, None), Ok(claims_for(ME)));
    assert_eq!(lookup_key(&a), format!("comments:post:{}:p1:l10", YOU_TEXT));
    let (f, a) = f.resume(Event::CacheMiss);
    assert!(matches!(a, Action::Run(Query::CommentsOn { post, limit: 10, offset: 0 }) if post == YOU));
    let (f, _) = f.resume(Event::Comments(vec![]));
    let (_, a) = f.resume(Event::Count(0));
    match &a {
        Action::Finish(r) => assert_eq!(r.stores[0].ttl_secs, 120),
        _ => panic!("expected a reply"),
    }
}

#[test]
fn lookups_of_single_items() {
    let (f, a) = get_user(Ok(claims_for(ME)), YOU);
    assert_eq!(lookup_key(&a), format!("user:{}", YOU_TEXT));
    let (f, a) = f.resume(Event::CacheMiss);
    assert!(matches!(a, Action::Run(Query::UserById(u)) if u == YOU));
    let (f, a) = f.resume(Event::MaybeUser(Some(user(YOU, "bob_builder"))));
    assert!(matches!(f, ItemFlow::Finished));
    match &a {
        Action::Finish(r) => {
            assert!(matches!(&r.outcome, Ok(Body::User(u)) if u.id == YOU));
            assert_eq!(r.stores.len(), 1);
            assert_eq!(r.stores[0].ttl_secs, 300);
        },
        _ => panic!("expected a reply"),
    }
    let (f, a) = get_user_by_username(Ok(claims_for(ME)), "bob_builder".to_string());
    assert_eq!(lookup_key(&a), "user:username:bob_builder");
    let (f, _) = f.resume(Event::CacheMiss);
    let (_, a) = f.resume(Event::MaybeUser(None));
    assert_eq!(error_of(&a), (404, Some("User not found".to_string())));
    let (f, a) = get_post_by_id(YOU, Ok(claims_for(ME)));
    assert_eq!(lookup_key(&a), format!("post:{}", YOU_TEXT));
    let (f, _) = f.resume(Event::CacheMiss);
    let (_, a) = f.resume(Event::MaybePost(None));
    assert_eq!(error_of(&a), (404, Some("Post not found".to_string())));
}

#[test]
fn like_counts_are_not_cached_on_read() {
    let (f, a) = get_likes(Ok(claims_for(ME)), YOU);
    assert_eq!(lookup_key(&a), format!("likes:count:{}", YOU_TEXT));
    let (f, a) = f.resume(Event::CacheMiss);
    assert!(matches!(a, Action::Run(Query::LikesCountOf(p)) if p == YOU));
    let (_, a) = f.resume(Event::MaybeCount(Some(7)));
    match &a {
        Action::Finish(r) => {
            assert!(matches!(&r.outcome, Ok(Body::LikeCount { post_id, likes: 7 }) if *post_id == YOU));
            assert!(r.stores.is_empty());
        },
        _ => panic!("expected a reply"),
    }
}

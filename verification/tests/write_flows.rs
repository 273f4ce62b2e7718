use social_media_app::models::comment_model::PostComment;
use social_media_app::models::like_model::Like;
use social_media_app::models::post_model::{CreatePostInput, Post, UpdatePost};
use social_media_app::services::comment_service::{delete_comment, post_comment};
use social_media_app::services::flow::{Action, Body, CacheOp, Event, Query};
use social_media_app::services::like_service::{check_user_like, like_post, unlike_post};
use social_media_app::services::post_service::{create_post, delete_post, update_post};
use social_media_app::utils::ids::uuid_to_text;
use social_media_app::utils::jwt::{refresh_token, Claims, RefreshClaims, RefreshTokenFlow};

const ME: u128 = 0x1111_2222_3333_4444_5555_6666_7777_8888;
const YOU: u128 = 0x67e5_5044_10b1_426f_9247_bb68_0e5f_e0c8;
const POST: u128 = 0x0123_4567_89ab_cdef_0123_4567_89ab_cdef;
const POST_TEXT: &str = "01234567-89ab-cdef-0123-456789abcdef";

fn claims_for(id: u128) -> Claims {
    Claims { id: uuid_to_text(id), sub: uuid_to_text(id), exp: 0 }
}

fn post(id: u128, author: u128) -> Post {
    Post { id, title: "t".to_string(), body: "b".to_string(), user_id: author, likes_count: 0, created_at: 0 }
}

fn error_of(a: &Action) -> (u16, Option<String>) {
    match a {
        Action::Finish(r) => match &r.outcome {
            Err(e) => (e.status, e.message.clone()),
            Ok(_) => panic!("expected an error reply"),
        },
        _ => panic!("expected a reply"),
    }
}

fn message_of(a: &Action) -> String {
    match a {
        Action::Finish(r) => match &r.outcome {
            Ok(Body::Message(m)) => m.clone(),
            _ => panic!("expected a message reply"),
        },
        _ => panic!("expected a reply"),
    }
}

#[test]
fn create_post_checks_fields_before_the_token() {
    let (_, a) = create_post(Err(401), CreatePostInput { title: "".to_string(), body: "b".to_string() });
    assert_eq!(error_of(&a), (400, Some("Title and body are required".to_string())));
    let (_, a) = create_post(Err(401), CreatePostInput { title: "t".to_string(), body: "b".to_string() });
    assert_eq!(error_of(&a), (401, Some("Unauthorized access".to_string())));
}

#[test]
fn create_post_clears_the_authors_pages() {
    let (f, a) = create_post(Ok(claims_for(ME)), CreatePostInput { title: "t".to_string(), body: "b".to_string() });
    assert!(matches!(&a, Action::Run(Query::InsertPost { title, body, user }) if title == "t" && body == "b" && *user == ME));
    let (f, a) = f.resume(Event::Post(post(POST, ME)));
    match &a {
        Action::Invalidate(ops) => {
            assert_eq!(ops.len(), 2);
            assert!(matches!(&ops[0], CacheOp::InvalidatePattern(p) if p == "user:posts:11112222-3333-4444-5555-666677778888:*"));
            assert!(matches!(&ops[1], CacheOp::InvalidatePattern(p) if p == "feed:11112222-3333-4444-5555-666677778888:*"));
        },
        _ => panic!("expected cache removals"),
    }
    let (_, a) = f.resume(Event::Done);
    match &a {
        Action::Finish(r) => assert!(matches!(&r.outcome, Ok(Body::PostEnvelope(p)) if p.id == POST)),
        _ => panic!("expected a reply"),
    }
}

#[test]
fn only_the_author_updates_a_post() {
    let change = || UpdatePost { title: Some("new".to_string()), body: None };
    let (_, a) = update_post(Ok(claims_for(ME)), POST, UpdatePost { title: None, body: None });
    assert_eq!(error_of(&a), (400, Some("No fields provided for update".to_string())));
    let (f, a) = update_post(Ok(claims_for(ME)), POST, change());
    assert!(matches!(a, Action::Run(Query::PostById(p)) if p == POST));
    let (_, a) = f.resume(Event::MaybePost(Some(post(POST, YOU))));
    assert_eq!(error_of(&a), (403, Some("Unauthorized to update this post".to_string())));
    let (f, _) = update_post(Ok(claims_for(ME)), POST, change());
    let (_, a) = f.resume(Event::MaybePost(None));
    assert_eq!(error_of(&a), (404, Some("Post not found".to_string())));
}

#[test]
fn an_update_clears_the_post_and_every_feed() {
    let (f, _) = update_post(Ok(claims_for(ME)), POST, UpdatePost { title: None, body: Some("nb".to_string()) });
    let (f, a) = f.resume(Event::MaybePost(Some(post(POST, ME))));
    assert!(matches!(&a, Action::Run(Query::UpdatePost { id, title: None, body: Some(b) }) if *id == POST && b == "nb"));
    let (f, a) = f.resume(Event::Post(post(POST, ME)));
    match &a {
        Action::Invalidate(ops) => {
            assert!(matches!(&ops[0], CacheOp::Delete(k) if *k == format!("post:{}", POST_TEXT)));
            assert!(matches!(&ops[2], CacheOp::InvalidatePattern(p) if p == "feed:*:*"));
        },
        _ => panic!("expected cache removals"),
    }
    let (_, a) = f.resume(Event::Done);
    assert!(matches!(&a, Action::Finish(r) if matches!(&r.outcome, Ok(Body::PostEnvelope(_)))));
}

#[test]
fn delete_post_compares_the_subject_text() {
    let upper = Claims { id: "x".to_string(), sub: uuid_to_text(YOU).to_uppercase(), exp: 0 };
    let (f, _) = delete_post(Ok(upper), POST);
    let (_, a) = f.resume(Event::MaybePost(Some(post(POST, YOU))));
    assert_eq!(error_of(&a), (403, Some("Unauthorized to delete this post".to_string())));
}

#[test]
fn delete_post_removes_comments_likes_and_post() {
    let (f, a) = delete_post(Ok(claims_for(ME)), POST);
    assert!(matches!(a, Action::Run(Query::PostById(p)) if p == POST));
    let (f, a) = f.resume(Event::MaybePost(Some(post(POST, ME))));
    assert!(matches!(a, Action::BeginTransaction));
    let (f, a) = f.resume(Event::Done);
    assert!(matches!(a, Action::Run(Query::DeleteCommentsOnPost(p)) if p == POST));
    let (f, a) = f.resume(Event::Rows(3));
    assert!(matches!(a, Action::Run(Query::DeleteLikesOnPost(p)) if p == POST));
    let (f, a) = f.resume(Event::Rows(2));
    assert!(matches!(a, Action::Run(Query::DeletePostRow(p)) if p == POST));
    let (f, a) = f.resume(Event::Done);
    assert!(matches!(a, Action::CommitTransaction));
    let (f, a) = f.resume(Event::Done);
    assert!(matches!(&a, Action::Invalidate(ops) if ops.len() == 3));
    let (_, a) = f.resume(Event::Done);
    assert!(matches!(&a, Action::Finish(r) if matches!(r.outcome, Ok(Body::PostDeleted { comments_deleted: 3, likes_deleted: 2 }))));
}

#[test]
fn like_then_unlike() {
    let (f, a) = like_post(Ok(claims_for(ME)), POST);
    assert!(matches!(a, Action::Run(Query::LikeExists { user, post }) if user == ME && post == POST));
    let (f, a) = f.resume(Event::Flag(false));
    assert!(matches!(a, Action::BeginTransaction));
    let (f, a) = f.resume(Event::Done);
    assert!(matches!(a, Action::Run(Query::InsertLike { user, post }) if user == ME && post == POST));
    let (f, a) = f.resume(Event::Like(Like { id: 9, user_id: ME, post_id: POST }));
    assert!(matches!(a, Action::Run(Query::IncrementLikes(p)) if p == POST));
    let (f, a) = f.resume(Event::Done);
    assert!(matches!(a, Action::CommitTransaction));
    let (f, a) = f.resume(Event::Done);
    match &a {
        Action::Invalidate(ops) => {
            assert!(matches!(&ops[0], CacheOp::Delete(k) if *k == format!("likes:count:{}", POST_TEXT)));
            assert!(matches!(&ops[1], CacheOp::Delete(k) if *k == format!("user:11112222-3333-4444-5555-666677778888:liked:{}", POST_TEXT)));
        },
        _ => panic!("expected cache removals"),
    }
    let (_, a) = f.resume(Event::Done);
    assert!(matches!(&a, Action::Finish(r) if matches!(r.outcome, Ok(Body::Like(Like { id: 9, .. })))));

    let (f, a) = unlike_post(Ok(claims_for(ME)), POST);
    assert!(matches!(a, Action::BeginTransaction));
    let (f, _) = f.resume(Event::Done);
    let (f, a) = f.resume(Event::Rows(1));
    assert!(matches!(a, Action::Run(Query::DecrementLikes(p)) if p == POST));
    let (f, _) = f.resume(Event::Done);
    let (f, _) = f.resume(Event::Done);
    let (_, a) = f.resume(Event::Done);
    assert_eq!(message_of(&a), "Post unliked successfully");
}

#[test]
fn like_conflicts_and_missing_likes() {
    let (f, _) = like_post(Ok(claims_for(ME)), POST);
    let (_, a) = f.resume(Event::Flag(true));
    assert_eq!(error_of(&a), (409, Some("Already liked".to_string())));
    let (f, _) = unlike_post(Ok(claims_for(ME)), POST);
    let (f, _) = f.resume(Event::Done);
    let (_, a) = f.resume(Event::Rows(0));
    assert_eq!(error_of(&a), (404, Some("Like not found".to_string())));
    let bad = Claims { id: "x".to_string(), sub: "x".to_string(), exp: 0 };
    let (_, a) = like_post(Ok(bad), POST);
    assert_eq!(error_of(&a), (400, Some("Invalid user ID format".to_string())));
}

#[test]
fn like_status() {
    let (f, _) = check_user_like(Ok(claims_for(ME)), POST);
    let (_, a) = f.resume(Event::Flag(false));
    assert_eq!(error_of(&a), (404, Some("Post not found".to_string())));
    let (f, _) = check_user_like(Ok(claims_for(ME)), POST);
    let (f, a) = f.resume(Event::Flag(true));
    assert!(matches!(a, Action::Run(Query::LikeExists { user, post }) if user == ME && post == POST));
    let (_, a) = f.resume(Event::Flag(true));
    assert!(matches!(&a, Action::Finish(r) if matches!(r.outcome, Ok(Body::LikeStatus { liked: true, .. }))));
}

#[test]
fn comments_are_posted_and_deleted() {
    let (f, a) = post_comment(Ok(claims_for(ME)), POST, PostComment { body: "hi".to_string() });
    assert!(matches!(a, Action::Run(Query::PostExists(p)) if p == POST));
    let (f, a) = f.resume(Event::Flag(true));
    assert!(matches!(&a, Action::Run(Query::InsertComment { post, user, body }) if *post == POST && *user == ME && body == "hi"));
    let (f, a) = f.resume(Event::Done);
    match &a {
        Action::Invalidate(ops) => {
            assert!(matches!(&ops[0], CacheOp::InvalidatePattern(p) if *p == format!("comments:{}:*", POST_TEXT)));
            assert!(matches!(&ops[1], CacheOp::Delete(k) if *k == format!("post:{}", POST_TEXT)));
        },
        _ => panic!("expected cache removals"),
    }
    let (_, a) = f.resume(Event::Done);
    assert_eq!(message_of(&a), "Comment posted successfully");

    let (f, a) = delete_comment(Ok(claims_for(ME)), POST, 42);
    assert!(matches!(a, Action::Run(Query::DeleteComment { id: 42, user, post }) if user == ME && post == POST));
    let (_, a) = f.resume(Event::Rows(0));
    assert_eq!(error_of(&a), (404, Some("Comment not found or you don't have permission to delete it".to_string())));
    let (f, _) = delete_comment(Ok(claims_for(ME)), POST, 42);
    let (f, _) = f.resume(Event::Rows(1));
    let (_, a) = f.resume(Event::Done);
    assert_eq!(message_of(&a), "Comment deleted successfully");
}

#[test]
fn a_comment_on_a_missing_post_is_refused() {
    let (f, _) = post_comment(Ok(claims_for(ME)), POST, PostComment { body: "hi".to_string() });
    let (_, a) = f.resume(Event::Flag(false));
    assert_eq!(error_of(&a), (404, Some("Post not found".to_string())));
}

#[test]
fn refresh_tokens_buy_access_tokens() {
    let (_, a) = refresh_token(None, 0);
    assert_eq!(error_of(&a), (401, Some("Invalid or expired refresh token".to_string())));
    let (f, a) = refresh_token(Some(RefreshClaims { sub: "abc".to_string(), exp: 5 }), 100);
    match &a {
        Action::IssueToken(c) => {
            assert_eq!(c.sub, "abc");
            assert_eq!(c.id, "abc");
            assert_eq!(c.exp, 3700);
        },
        _ => panic!("expected a token to be signed"),
    }
    let (f, a) = f.resume(Event::Token("t".to_string()));
    assert!(matches!(f, RefreshTokenFlow::Finished));
    assert!(matches!(&a, Action::Finish(r) if matches!(&r.outcome, Ok(Body::AccessToken(t)) if t == "t")));
}

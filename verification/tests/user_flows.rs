use social_media_app::models::user_model::{LoginUser, RegisterUser, UpdateUser, User, UserResponse};
use social_media_app::services::flow::{Action, Body, CacheOp, Event, Query};
use social_media_app::services::user_service::{
    delete_user, follow_user, insert_after_hash, login_user, register_user, unfollow_user,
    update_after_hash, update_user,
    DeleteUserFlow, FollowUserFlow, LoginUserFlow, RegisterUserFlow, UnfollowUserFlow,
    UpdateUserFlow,
};
use social_media_app::utils::ids::uuid_to_text;
use social_media_app::utils::jwt::Claims;
use social_media_app::utils::password::{hash_password, verify_password};

const ME: u128 = 0x1111_2222_3333_4444_5555_6666_7777_8888;
const YOU: u128 = 0x67e5_5044_10b1_426f_9247_bb68_0e5f_e0c8;

fn claims_for(id: u128) -> Claims {
    Claims { id: uuid_to_text(id), sub: uuid_to_text(id), exp: 0 }
}

fn bad_claims() -> Claims {
    Claims { id: "x".to_string(), sub: "not-an-id".to_string(), exp: 0 }
}

fn error_of(a: &Action) -> (u16, Option<String>) {
    match a {
        Action::Finish(r) => match &r.outcome {
            Err(e) => (e.status, e.message.clone()),
            Ok(_) => panic!("expected an error reply"),
        },
        _ => panic!("expected a reply"),
    }
}

fn message_of(a: &Action) -> String {
    match a {
        Action::Finish(r) => match &r.outcome {
            Ok(Body::Message(m)) => m.clone(),
            _ => panic!("expected a message reply"),
        },
        _ => panic!("expected a reply"),
    }
}

fn stored_user(id: u128, username: &str, hash: &str) -> User {
    User {
        id,
        username: username.to_string(),
        email: "a@b.c".to_string(),
        name: Some("Ana".to_string()),
        password_hash: hash.to_string(),
        birthday: Some(730000),
        created_at: 1_700_000_000_000_000,
    }
}

fn registration(username: &str, email: &str, password: &str) -> RegisterUser {
    RegisterUser {
        username: username.to_string(),
        email: email.to_string(),
        name: None,
        password: password.to_string(),
        birthday: None,
    }
}

#[test]
fn user_response_drops_the_hash() {
    let r = UserResponse::from(stored_user(ME, "ana_banana", "$2b$04$hash"));
    assert_eq!(r.id, ME);
    assert_eq!(r.username, "ana_banana");
    assert_eq!(r.email, "a@b.c");
    assert_eq!(r.name, Some("Ana".to_string()));
    assert_eq!(r.birthday, Some(730000));
    assert_eq!(r.created_at, 1_700_000_000_000_000);
}

#[test]
fn register_requires_all_fields() {
    let (f, a) = register_user(registration("", "a@b.c", "secret123"));
    assert!(matches!(f, RegisterUserFlow::Finished));
    assert_eq!(error_of(&a), (400, Some("Username, email, and password are required".to_string())));
}

#[test]
fn register_checks_lengths_in_bytes() {
    let (_, a) = register_user(registration("abcd", "a@b.c", "secret123"));
    assert_eq!(error_of(&a), (400, Some("Username must be at least 5 characters long".to_string())));
    let (_, a) = register_user(registration("žžab", "a@b.c", "short"));
    assert_eq!(error_of(&a), (400, Some("Password must be at least 8 characters long".to_string())));
}

#[test]
fn register_rejects_taken_username() {
    let (f, a) = register_user(registration("ana_banana", "a@b.c", "secret123"));
    match &a {
        Action::Run(Query::UsernameTaken(u)) => assert_eq!(u, "ana_banana"),
        _ => panic!("expected a username check"),
    }
    let (f, a) = f.resume(Event::Flag(true));
    assert!(matches!(f, RegisterUserFlow::Finished));
    assert_eq!(error_of(&a), (409, Some("Username or email already exists".to_string())));
}

#[test]
fn register_stores_a_hash_of_the_password() {
    let (f, _) = register_user(registration("ana_banana", "a@b.c", "secret123"));
    let (f, a) = f.resume(Event::Flag(false));
    match &a {
        Action::Run(Query::EmailTaken(e)) => assert_eq!(e, "a@b.c"),
        _ => panic!("expected an email check"),
    }
    let (f, a) = f.resume(Event::Flag(false));
    let hash = match &a {
        Action::Run(Query::InsertUser(u)) => {
            assert_eq!(u.username, "ana_banana");
            assert_eq!(u.email, "a@b.c");
            assert_ne!(u.password_hash, "secret123");
            u.password_hash.clone()
        },
        _ => panic!("expected an insert"),
    };
    assert_eq!(verify_password("secret123", &hash), Ok(true));
    assert_eq!(verify_password("secret124", &hash), Ok(false));
    let (f, a) = f.resume(Event::User(stored_user(ME, "ana_banana", &hash)));
    assert!(matches!(f, RegisterUserFlow::Finished));
    match &a {
        Action::Finish(r) => match &r.outcome {
            Ok(Body::User(u)) => assert_eq!(u.id, ME),
            _ => panic!("expected the account"),
        },
        _ => panic!("expected a reply"),
    }
}

#[test]
fn register_reports_storage_failures() {
    let (f, _) = register_user(registration("ana_banana", "a@b.c", "secret123"));
    let (_, a) = f.resume(Event::Failed("connection reset".to_string()));
    assert_eq!(error_of(&a), (500, Some("connection reset".to_string())));
}

#[test]
fn login_requires_both_fields() {
    let (_, a) = login_user(LoginUser { username: "ana".to_string(), password: "".to_string() }, 0);
    assert_eq!(error_of(&a), (400, Some("Username and password are required".to_string())));
}

#[test]
fn login_rejects_unknown_user_and_wrong_password() {
    let hash = hash_password("secret123", 4).unwrap();
    let login = || LoginUser { username: "ana_banana".to_string(), password: "secret123".to_string() };
    let (f, _) = login_user(login(), 1_700_000_000);
    let (_, a) = f.resume(Event::MaybeUser(None));
    assert_eq!(error_of(&a), (401, Some("Wrong username or password".to_string())));
    let wrong = LoginUser { username: "ana_banana".to_string(), password: "secret124".to_string() };
    let (f, _) = login_user(wrong, 1_700_000_000);
    let (_, a) = f.resume(Event::MaybeUser(Some(stored_user(ME, "ana_banana", &hash))));
    assert_eq!(error_of(&a), (401, Some("Wrong username or password".to_string())));
}

#[test]
fn login_issues_a_token_naming_the_account() {
    let hash = hash_password("secret123", 4).unwrap();
    let login = LoginUser { username: "ana_banana".to_string(), password: "secret123".to_string() };
    let (f, a) = login_user(login, 1_700_000_000);
    match &a {
        Action::Run(Query::UserByUsername(u)) => assert_eq!(u, "ana_banana"),
        _ => panic!("expected a lookup"),
    }
    let (f, a) = f.resume(Event::MaybeUser(Some(stored_user(ME, "ana_banana", &hash))));
    match &a {
        Action::IssueToken(c) => {
            assert_eq!(c.sub, "11112222-3333-4444-5555-666677778888");
            assert_eq!(c.id, c.sub);
            assert_eq!(c.exp, 1_700_003_600);
        },
        _ => panic!("expected a token to be signed"),
    }
    let (f, a) = f.resume(Event::Token("tok".to_string()));
    assert!(matches!(f, LoginUserFlow::Finished));
    match &a {
        Action::Finish(r) => match &r.outcome {
            Ok(Body::Login { user, access_token }) => {
                assert_eq!(user.id, ME);
                assert_eq!(access_token, "tok");
            },
            _ => panic!("expected a login reply"),
        },
        _ => panic!("expected a reply"),
    }
}

#[test]
fn login_reports_a_malformed_stored_hash() {
    let login = LoginUser { username: "ana_banana".to_string(), password: "secret123".to_string() };
    let (f, _) = login_user(login, 0);
    let (_, a) = f.resume(Event::MaybeUser(Some(stored_user(ME, "ana_banana", "plain"))));
    let (status, msg) = error_of(&a);
    assert_eq!(status, 500);
    assert!(msg.is_some());
}

fn no_changes() -> UpdateUser {
    UpdateUser { username: None, email: None, name: None, password: None, birthday: None }
}

#[test]
fn update_user_checks_token_and_fields() {
    let (_, a) = update_user(Err(401), no_changes());
    assert_eq!(error_of(&a), (401, Some("Unauthorized access".to_string())));
    let (_, a) = update_user(Ok(bad_claims()), no_changes());
    assert_eq!(error_of(&a), (400, Some("Invalid user ID".to_string())));
    let short = UpdateUser { username: Some("abc".to_string()), ..no_changes() };
    let (_, a) = update_user(Ok(claims_for(ME)), short);
    assert_eq!(error_of(&a), (400, Some("Username must be at least 5 characters long".to_string())));
    let short = UpdateUser { password: Some("abc".to_string()), ..no_changes() };
    let (_, a) = update_user(Ok(claims_for(ME)), short);
    assert_eq!(error_of(&a), (400, Some("Password must be at least 8 characters long".to_string())));
    let (_, a) = update_user(Ok(claims_for(ME)), no_changes());
    assert_eq!(error_of(&a), (400, Some("No fields provided for update".to_string())));
}

#[test]
fn update_user_maps_uniqueness_failures_to_conflict() {
    let change = || UpdateUser { email: Some("new@b.c".to_string()), ..no_changes() };
    let (f, _) = update_user(Ok(claims_for(ME)), change());
    let (_, a) = f.resume(Event::Failed("duplicate key value violates unique constraint".to_string()));
    assert_eq!(error_of(&a), (409, Some("Username or email already exists".to_string())));
    let (f, _) = update_user(Ok(claims_for(ME)), change());
    let (_, a) = f.resume(Event::Failed("timeout".to_string()));
    assert_eq!(error_of(&a), (500, Some("timeout".to_string())));
    let (f, _) = update_user(Ok(claims_for(ME)), change());
    let (_, a) = f.resume(Event::MaybeUser(None));
    assert_eq!(error_of(&a), (404, Some("User not found".to_string())));
}

#[test]
fn update_user_clears_account_caches() {
    let change = UpdateUser { username: Some("new_name".to_string()), ..no_changes() };
    let (f, a) = update_user(Ok(claims_for(ME)), change);
    match &a {
        Action::Run(Query::UpdateUser(c)) => {
            assert_eq!(c.id, ME);
            assert_eq!(c.username, Some("new_name".to_string()));
            assert!(c.password_hash.is_none());
        },
        _ => panic!("expected an update"),
    }
    let (f, a) = f.resume(Event::MaybeUser(Some(stored_user(ME, "new_name", "h"))));
    match &a {
        Action::Invalidate(ops) => {
            assert_eq!(ops.len(), 3);
            assert!(matches!(&ops[0], CacheOp::Delete(k) if k == "user:11112222-3333-4444-5555-666677778888"));
            assert!(matches!(&ops[1], CacheOp::Delete(k) if k == "user:username:new_name"));
            assert!(matches!(&ops[2], CacheOp::InvalidatePattern(p) if p == "user:profile:11112222-3333-4444-5555-666677778888:*"));
        },
        _ => panic!("expected cache removals"),
    }
    let (f, a) = f.resume(Event::Failed("cache down".to_string()));
    assert!(matches!(f, UpdateUserFlow::Finished));
    match &a {
        Action::Finish(r) => assert!(matches!(&r.outcome, Ok(Body::UserUpdated(u)) if u.username == "new_name")),
        _ => panic!("expected a reply"),
    }
}

#[test]
fn update_user_hashes_a_new_password() {
    let change = UpdateUser { password: Some("longpassword".to_string()), ..no_changes() };
    let (_, a) = update_user(Ok(claims_for(ME)), change);
    match &a {
        Action::Run(Query::UpdateUser(c)) => {
            let h = c.password_hash.clone().unwrap();
            assert_eq!(verify_password("longpassword", &h), Ok(true));
        },
        _ => panic!("expected an update"),
    }
}

#[test]
fn delete_user_runs_every_deletion_in_one_transaction() {
    let (f, a) = delete_user(Ok(claims_for(ME)));
    match &a {
        Action::Invalidate(ops) => {
            assert_eq!(ops.len(), 8);
            assert!(matches!(&ops[0], CacheOp::InvalidatePattern(p) if p == "user:11112222-3333-4444-5555-666677778888"));
            assert!(matches!(&ops[5], CacheOp::InvalidatePattern(p) if p == "feed:11112222-3333-4444-5555-666677778888:*"));
            assert!(matches!(&ops[7], CacheOp::Delete(k) if k == "following:count:11112222-3333-4444-5555-666677778888"));
        },
        _ => panic!("expected cache removals"),
    }
    let (f, a) = f.resume(Event::Done);
    assert!(matches!(a, Action::BeginTransaction));
    let (mut f, mut a) = f.resume(Event::Done);
    let mut seen = Vec::new();
    while let Action::Run(q) = &a {
        seen.push(match q {
            Query::DeleteLikesOnPostsOf(id) => (0, *id),
            Query::DeleteCommentsOnPostsOf(id) => (1, *id),
            Query::DeletePostsOf(id) => (2, *id),
            Query::DeleteCommentsBy(id) => (3, *id),
            Query::DeleteLikesBy(id) => (4, *id),
            Query::DeleteFollowsOf(id) => (5, *id),
            Query::DeleteUserRow(id) => (6, *id),
            _ => panic!("unexpected statement"),
        });
        let next = f.resume(Event::Done);
        f = next.0;
        a = next.1;
    }
    assert_eq!(seen, (0..7).map(|k| (k, ME)).collect::<Vec<_>>());
    assert!(matches!(a, Action::CommitTransaction));
    let (f, a) = f.resume(Event::Done);
    assert!(matches!(f, DeleteUserFlow::Finished));
    assert_eq!(message_of(&a), "User and all associated data deleted successfully");
}

#[test]
fn delete_user_stops_at_a_failed_statement() {
    let (f, _) = delete_user(Ok(claims_for(ME)));
    let (f, _) = f.resume(Event::Done);
    let (f, _) = f.resume(Event::Done);
    let (f, _) = f.resume(Event::Done);
    let (f, a) = f.resume(Event::Failed("fk violation".to_string()));
    assert!(matches!(f, DeleteUserFlow::Finished));
    assert_eq!(error_of(&a), (500, Some("fk violation".to_string())));
}

#[test]
fn nobody_follows_themself() {
    let (_, a) = follow_user(Ok(claims_for(ME)), ME);
    assert_eq!(error_of(&a), (400, Some("You cannot follow yourself".to_string())));
    let (_, a) = unfollow_user(Ok(claims_for(ME)), ME);
    assert_eq!(error_of(&a), (400, Some("You cannot unfollow yourself".to_string())));
    let (_, a) = follow_user(Err(401), YOU);
    assert_eq!(error_of(&a), (401, Some("Unauthorized access".to_string())));
}

#[test]
fn follow_checks_target_and_existing_follow() {
    let (f, a) = follow_user(Ok(claims_for(ME)), YOU);
    assert!(matches!(a, Action::Run(Query::UserExists(t)) if t == YOU));
    let (_, a) = f.resume(Event::Flag(false));
    assert_eq!(error_of(&a), (404, Some("User not found".to_string())));
    let (f, _) = follow_user(Ok(claims_for(ME)), YOU);
    let (f, a) = f.resume(Event::Flag(true));
    assert!(matches!(a, Action::Run(Query::IsFollowing { follower, followed }) if follower == ME && followed == YOU));
    let (_, a) = f.resume(Event::Flag(true));
    assert_eq!(error_of(&a), (409, Some("Already following this user".to_string())));
}

#[test]
fn follow_records_and_clears_caches() {
    let (f, _) = follow_user(Ok(claims_for(ME)), YOU);
    let (f, _) = f.resume(Event::Flag(true));
    let (f, a) = f.resume(Event::Flag(false));
    assert!(matches!(a, Action::Run(Query::InsertFollow { follower, followed }) if follower == ME && followed == YOU));
    let (f, a) = f.resume(Event::Done);
    match &a {
        Action::Invalidate(ops) => {
            assert_eq!(ops.len(), 5);
            assert!(matches!(&ops[0], CacheOp::InvalidatePattern(p) if p == "followers:67e55044-10b1-426f-9247-bb680e5fe0c8:*"));
            assert!(matches!(&ops[1], CacheOp::InvalidatePattern(p) if p == "following:11112222-3333-4444-5555-666677778888:*"));
            assert!(matches!(&ops[4], CacheOp::InvalidatePattern(p) if p == "feed:11112222-3333-4444-5555-666677778888:*"));
        },
        _ => panic!("expected cache removals"),
    }
    let (f, a) = f.resume(Event::Done);
    assert!(matches!(f, FollowUserFlow::Finished));
    assert_eq!(message_of(&a), "User followed successfully");
}

#[test]
fn unfollow_needs_an_existing_follow() {
    let (f, a) = unfollow_user(Ok(claims_for(ME)), YOU);
    assert!(matches!(a, Action::Run(Query::DeleteFollow { follower, followed }) if follower == ME && followed == YOU));
    let (_, a) = f.resume(Event::Rows(0));
    assert_eq!(error_of(&a), (404, Some("You are not following this user".to_string())));
    let (f, _) = unfollow_user(Ok(claims_for(ME)), YOU);
    let (f, a) = f.resume(Event::Rows(1));
    assert!(matches!(a, Action::Invalidate(ref ops) if ops.len() == 5));
    let (f, a) = f.resume(Event::Done);
    assert!(matches!(f, UnfollowUserFlow::Finished));
    assert_eq!(message_of(&a), "User unfollowed successfully");
}

#[test]
fn hashing_refuses_a_cost_out_of_range() {
    assert!(hash_password("secret123", 3).is_err());
    assert!(hash_password("secret123", 32).is_err());
}

#[test]
fn a_hashed_registration_inserts_the_hash() {
    let (f, a) = insert_after_hash(registration("alice1", "a@x.io", "longpassword"), Ok("$2b$12$abc".to_string()));
    assert!(matches!(f, RegisterUserFlow::Inserting));
    match a {
        Action::Run(Query::InsertUser(u)) => {
            assert_eq!(u.username, "alice1");
            assert_eq!(u.email, "a@x.io");
            assert_eq!(u.password_hash, "$2b$12$abc");
            
        }
        _ => panic!("expected an insert"),
    }
    let (f, a) = insert_after_hash(registration("alice1", "a@x.io", "longpassword"), Err("no randomness".to_string()));
    assert!(matches!(f, RegisterUserFlow::Finished));
    assert_eq!(error_of(&a), (500, Some("no randomness".to_string())));
}

#[test]
fn a_registration_hash_is_written_with_cost_twelve() {
    let (f, _) = register_user(registration("alice1", "a@x.io", "longpassword"));
    let (f, _) = f.resume(Event::Flag(false));
    let (_, a) = f.resume(Event::Flag(false));
    match a {
        Action::Run(Query::InsertUser(u)) => assert!(u.password_hash.starts_with("$2b$12$")),
        _ => panic!("expected an insert"),
    }
}

fn email_change() -> UpdateUser {
    UpdateUser { username: None, email: Some("new@x.io".to_string()), name: None, password: None, birthday: None }
}

#[test]
fn an_update_after_hashing_sends_the_changes() {
    let (f, a) = update_after_hash(ME, email_change(), None);
    assert!(matches!(f, UpdateUserFlow::Updating { id, .. } if id == ME));
    match a {
        Action::Run(Query::UpdateUser(c)) => {
            assert_eq!(c.id, ME);
            assert_eq!(c.email, Some("new@x.io".to_string()));
            assert_eq!(c.password_hash, None);
        }
        _ => panic!("expected an update"),
    }
    let (_, a) = update_after_hash(ME, email_change(), Some(Ok("$2b$12$h".to_string())));
    assert!(matches!(a, Action::Run(Query::UpdateUser(ref c)) if c.password_hash == Some("$2b$12$h".to_string())));
    let (f, a) = update_after_hash(ME, email_change(), Some(Err("boom".to_string())));
    assert!(matches!(f, UpdateUserFlow::Finished));
    assert_eq!(error_of(&a), (500, Some("boom".to_string())));
}

#[test]
fn an_update_without_a_password_is_always_sent() {
    let (_, a) = update_user(Ok(claims_for(ME)), email_change());
    assert!(matches!(a, Action::Run(Query::UpdateUser(ref c)) if c.id == ME && c.password_hash.is_none()));
}

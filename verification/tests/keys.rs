use social_media_app::utils::cache::keys;
use social_media_app::utils::cache::{has_keys_to_delete, ttl_seconds, DEFAULT_TTL_SECS};
use social_media_app::utils::ids::{parse_uuid, uuid_to_text};

const ID: u128 = 0x67e5_5044_10b1_426f_9247_bb68_0e5f_e0c8;
const OTHER: u128 = 0xa1a2_a3a4_b1b2_c1c2_d1d2_d3d4_d5d6_d7d8;

#[test]
fn identifier_text_is_hyphenated_lowercase() {
    assert_eq!(uuid_to_text(ID), "67e55044-10b1-426f-9247-bb680e5fe0c8");
    assert_eq!(uuid_to_text(0), "00000000-0000-0000-0000-000000000000");
}

#[test]
fn identifier_text_reads_back() {
    assert_eq!(parse_uuid(&uuid_to_text(OTHER)), Some(OTHER));
    assert_eq!(parse_uuid("A1A2A3A4-B1B2-C1C2-D1D2-D3D4D5D6D7D8"), Some(OTHER));
    assert_eq!(parse_uuid("not an id"), None);
}

#[test]
fn single_item_keys() {
    assert_eq!(keys::user_profile(ID), "user:profile:67e55044-10b1-426f-9247-bb680e5fe0c8");
    assert_eq!(keys::post(ID), "post:67e55044-10b1-426f-9247-bb680e5fe0c8");
    assert_eq!(keys::likes(ID), "likes:67e55044-10b1-426f-9247-bb680e5fe0c8");
    assert_eq!(keys::user(ID), "user:67e55044-10b1-426f-9247-bb680e5fe0c8");
    assert_eq!(keys::user_by_username("alice_1"), "user:username:alice_1");
    assert_eq!(keys::post_likes(ID), "likes:count:67e55044-10b1-426f-9247-bb680e5fe0c8");
    assert_eq!(keys::follower_count(ID), "followers:count:67e55044-10b1-426f-9247-bb680e5fe0c8");
    assert_eq!(keys::following_count(ID), "following:count:67e55044-10b1-426f-9247-bb680e5fe0c8");
}

#[test]
fn pair_keys() {
    assert_eq!(
        keys::user_like_status(ID, OTHER),
        "likes:status:67e55044-10b1-426f-9247-bb680e5fe0c8:a1a2a3a4-b1b2-c1c2-d1d2-d3d4d5d6d7d8"
    );
    assert_eq!(
        keys::user_liked_post(ID, OTHER),
        "user:67e55044-10b1-426f-9247-bb680e5fe0c8:liked:a1a2a3a4-b1b2-c1c2-d1d2-d3d4d5d6d7d8"
    );
}

#[test]
fn page_keys() {
    assert_eq!(keys::user_posts(ID, 2, 10), "user:posts:67e55044-10b1-426f-9247-bb680e5fe0c8:p2:l10");
    assert_eq!(keys::feed(ID, 1, 100), "feed:67e55044-10b1-426f-9247-bb680e5fe0c8:p1:l100");
    assert_eq!(keys::comments(ID, 0, 7), "comments:67e55044-10b1-426f-9247-bb680e5fe0c8:p0:l7");
    assert_eq!(keys::followers(ID, 4294967295, 9), "followers:67e55044-10b1-426f-9247-bb680e5fe0c8:p4294967295:l9");
    assert_eq!(keys::following(ID, 12, 34), "following:67e55044-10b1-426f-9247-bb680e5fe0c8:p12:l34");
    assert_eq!(keys::user_profile_with_posts(ID, 3, 5), "user:profile:67e55044-10b1-426f-9247-bb680e5fe0c8:p3:l5");
    assert_eq!(keys::post_comments(ID, 1, 10), "comments:post:67e55044-10b1-426f-9247-bb680e5fe0c8:p1:l10");
}

#[test]
fn signed_profile_page_key() {
    assert_eq!(keys::profile_page_key(ID, -2, 10), "user:profile:67e55044-10b1-426f-9247-bb680e5fe0c8:p-2:l10");
    assert_eq!(
        keys::profile_page_key(ID, i64::MIN, i64::MAX),
        "user:profile:67e55044-10b1-426f-9247-bb680e5fe0c8:p-9223372036854775808:l9223372036854775807"
    );
    assert_eq!(keys::profile_page_key(ID, 3, 5), keys::user_profile_with_posts(ID, 3, 5));
}

#[test]
fn removal_patterns() {
    assert_eq!(keys::user_profile_pattern(ID), "user:profile:67e55044-10b1-426f-9247-bb680e5fe0c8:*");
    assert_eq!(keys::user_posts_pattern(ID), "user:posts:67e55044-10b1-426f-9247-bb680e5fe0c8:*");
    assert_eq!(keys::followers_pattern(ID), "followers:67e55044-10b1-426f-9247-bb680e5fe0c8:*");
    assert_eq!(keys::following_pattern(ID), "following:67e55044-10b1-426f-9247-bb680e5fe0c8:*");
    assert_eq!(keys::feed_pattern(ID), "feed:67e55044-10b1-426f-9247-bb680e5fe0c8:*");
    assert_eq!(keys::comments_pattern(ID), "comments:67e55044-10b1-426f-9247-bb680e5fe0c8:*");
    assert_eq!(keys::all_feeds_pattern(), "feed:*:*");
}

#[test]
fn cache_lifetimes() {
    assert_eq!(ttl_seconds(None, DEFAULT_TTL_SECS), 60);
    assert_eq!(ttl_seconds(Some(300), DEFAULT_TTL_SECS), 300);
    assert!(!has_keys_to_delete(&vec![]));
    assert!(has_keys_to_delete(&vec!["a".to_string()]));
}

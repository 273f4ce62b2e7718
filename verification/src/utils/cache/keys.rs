//! Names under which responses are cached, and the patterns that remove
//! families of them.
use crate::utils::ids;
use crate::utils::ids::uuid_to_text;
use crate::utils::text;
use crate::utils::text::{push_decimal, push_signed_decimal};
use vstd::prelude::*;
use vstd::string::*;

verus! {

/// `prefix`, then the identifier's text.
pub open spec fn id_key(prefix: Seq<char>, id: u128) -> Seq<char> {
    prefix + ids::uuid_text(id)
}

/// `prefix`, the identifier's text, then `:p<page>:l<limit>` in decimal.
pub open spec fn page_key(prefix: Seq<char>, id: u128, page: int, limit: int) -> Seq<char> {
    prefix + ids::uuid_text(id) + ":p"@ + text::signed_decimal(page) + ":l"@ + text::signed_decimal(limit)
}

/// `prefix`, the identifier's text, then `:*`: every key that continues the
/// identifier with a colon.
pub open spec fn id_pattern(prefix: Seq<char>, id: u128) -> Seq<char> {
    prefix + ids::uuid_text(id) + ":*"@
}

fn text_then_id(prefix: &str, id: u128) -> (s: String)
    ensures
        s@ == id_key(prefix@, id),
{
    let mut s = String::from_str(prefix);
    let t = uuid_to_text(id);
    s.append(t.as_str());
    s
}

fn text_then_id_page(prefix: &str, id: u128, page: u32, limit: u32) -> (s: String)
    ensures
        s@ == page_key(prefix@, id, page as int, limit as int),
{
    let mut s = text_then_id(prefix, id);
    s.append(":p");
    push_decimal(&mut s, page as u64);
    s.append(":l");
    push_decimal(&mut s, limit as u64);
    s
}

/// Key of a profile page where page and size are taken as the request gave
/// them, signed.
pub fn profile_page_key(user_id: u128, page: i64, limit: i64) -> (s: String)
    ensures
        s@ == page_key("user:profile:"@, user_id, page as int, limit as int),
{
    let mut s = text_then_id("user:profile:", user_id);
    s.append(":p");
    push_signed_decimal(&mut s, page);
    s.append(":l");
    push_signed_decimal(&mut s, limit);
    s
}

fn text_then_id_pattern(prefix: &str, id: u128) -> (s: String)
    ensures
        s@ == id_pattern(prefix@, id),
{
    let mut s = text_then_id(prefix, id);
    s.append(":*");
    s
}

/// `user:profile:<id>`
pub fn user_profile(user_id: u128) -> (s: String)
    ensures
        s@ == id_key("user:profile:"@, user_id),
{
    text_then_id("user:profile:", user_id)
}

/// `user:posts:<id>:p<page>:l<limit>`
pub fn user_posts(user_id: u128, page: u32, limit: u32) -> (s: String)
    ensures
        s@ == page_key("user:posts:"@, user_id, page as int, limit as int),
{
    text_then_id_page("user:posts:", user_id, page, limit)
}

/// `post:<id>`
pub fn post(post_id: u128) -> (s: String)
    ensures
        s@ == id_key("post:"@, post_id),
{
    text_then_id("post:", post_id)
}

/// `feed:<id>:p<page>:l<limit>`
pub fn feed(user_id: u128, page: u32, limit: u32) -> (s: String)
    ensures
        s@ == page_key("feed:"@, user_id, page as int, limit as int),
{
    text_then_id_page("feed:", user_id, page, limit)
}

/// `comments:<id>:p<page>:l<limit>`
pub fn comments(post_id: u128, page: u32, limit: u32) -> (s: String)
    ensures
        s@ == page_key("comments:"@, post_id, page as int, limit as int),
{
    text_then_id_page("comments:", post_id, page, limit)
}

/// `likes:<id>`
pub fn likes(post_id: u128) -> (s: String)
    ensures
        s@ == id_key("likes:"@, post_id),
{
    text_then_id("likes:", post_id)
}

/// `followers:<id>:p<page>:l<limit>`
pub fn followers(user_id: u128, page: u32, limit: u32) -> (s: String)
    ensures
        s@ == page_key("followers:"@, user_id, page as int, limit as int),
{
    text_then_id_page("followers:", user_id, page, limit)
}

/// `following:<id>:p<page>:l<limit>`
pub fn following(user_id: u128, page: u32, limit: u32) -> (s: String)
    ensures
        s@ == page_key("following:"@, user_id, page as int, limit as int),
{
    text_then_id_page("following:", user_id, page, limit)
}

/// `user:<id>`
pub fn user(user_id: u128) -> (s: String)
    ensures
        s@ == id_key("user:"@, user_id),
{
    text_then_id("user:", user_id)
}

/// `user:username:<username>`
pub fn user_by_username(username: &str) -> (s: String)
    ensures
        s@ == "user:username:"@ + username@,
{
    let mut s = String::from_str("user:username:");
    s.append(username);
    s
}

/// `user:profile:<id>:p<page>:l<limit>`
pub fn user_profile_with_posts(user_id: u128, page: u32, limit: u32) -> (s: String)
    ensures
        s@ == page_key("user:profile:"@, user_id, page as int, limit as int),
{
    text_then_id_page("user:profile:", user_id, page, limit)
}

/// `likes:count:<id>`
pub fn post_likes(post_id: u128) -> (s: String)
    ensures
        s@ == id_key("likes:count:"@, post_id),
{
    text_then_id("likes:count:", post_id)
}

/// `likes:status:<user id>:<post id>`
pub fn user_like_status(user_id: u128, post_id: u128) -> (s: String)
    ensures
        s@ == id_key("likes:status:"@, user_id) + ":"@ + ids::uuid_text(post_id),
{
    let mut s = text_then_id("likes:status:", user_id);
    s.append(":");
    let t = uuid_to_text(post_id);
    s.append(t.as_str());
    s
}

/// `comments:post:<id>:p<page>:l<limit>`
pub fn post_comments(post_id: u128, page: u32, limit: u32) -> (s: String)
    ensures
        s@ == page_key("comments:post:"@, post_id, page as int, limit as int),
{
    text_then_id_page("comments:post:", post_id, page, limit)
}

/// `user:<user id>:liked:<post id>`
pub fn user_liked_post(user_id: u128, post_id: u128) -> (s: String)
    ensures
        s@ == id_key("user:"@, user_id) + ":liked:"@ + ids::uuid_text(post_id),
{
    let mut s = text_then_id("user:", user_id);
    s.append(":liked:");
    let t = uuid_to_text(post_id);
    s.append(t.as_str());
    s
}

/// `followers:count:<id>`
pub fn follower_count(user_id: u128) -> (s: String)
    ensures
        s@ == id_key("followers:count:"@, user_id),
{
    text_then_id("followers:count:", user_id)
}

/// `following:count:<id>`
pub fn following_count(user_id: u128) -> (s: String)
    ensures
        s@ == id_key("following:count:"@, user_id),
{
    text_then_id("following:count:", user_id)
}

/// `user:profile:<id>:*`, the pattern of a user's cached profile pages.
pub fn user_profile_pattern(user_id: u128) -> (s: String)
    ensures
        s@ == id_pattern("user:profile:"@, user_id),
{
    text_then_id_pattern("user:profile:", user_id)
}

/// `user:posts:<id>:*`, the pattern of a user's cached post pages.
pub fn user_posts_pattern(user_id: u128) -> (s: String)
    ensures
        s@ == id_pattern("user:posts:"@, user_id),
{
    text_then_id_pattern("user:posts:", user_id)
}

/// `followers:<id>:*`, the pattern of a user's cached follower pages.
pub fn followers_pattern(user_id: u128) -> (s: String)
    ensures
        s@ == id_pattern("followers:"@, user_id),
{
    text_then_id_pattern("followers:", user_id)
}

/// `following:<id>:*`, the pattern of a user's cached following pages.
pub fn following_pattern(user_id: u128) -> (s: String)
    ensures
        s@ == id_pattern("following:"@, user_id),
{
    text_then_id_pattern("following:", user_id)
}

/// `feed:<id>:*`, the pattern of a user's cached feed pages.
pub fn feed_pattern(user_id: u128) -> (s: String)
    ensures
        s@ == id_pattern("feed:"@, user_id),
{
    text_then_id_pattern("feed:", user_id)
}

/// `comments:<id>:*`, the pattern removed when a post's comments change.
pub fn comments_pattern(post_id: u128) -> (s: String)
    ensures
        s@ == id_pattern("comments:"@, post_id),
{
    text_then_id_pattern("comments:", post_id)
}

/// `feed:*:*`, the pattern of every cached feed page.
pub fn all_feeds_pattern() -> (s: String)
    ensures
        s@ == "feed:*:*"@,
{
    String::from_str("feed:*:*")
}

} // verus!

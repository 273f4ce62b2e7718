//! Cache policy: how long entries live, and which keys a removal pattern
//! reaches.
use crate::utils::ids;
use crate::utils::text;
use vstd::prelude::*;

pub mod keys;

verus! {

/// Seconds a cached entry lives when its writer names no lifetime.
pub const DEFAULT_TTL_SECS: u64 = 60;

/// The lifetime of an entry written with `ttl`, or with the default when
/// `ttl` is absent.
pub fn ttl_seconds(ttl: Option<u64>, default_ttl: u64) -> (r: u64)
    ensures
        r == match ttl {
            Some(t) => t,
            None => default_ttl,
        },
{
    match ttl {
        Some(t) => t,
        None => default_ttl,
    }
}

/// Whether a removal pattern has found keys to delete; an empty set of keys
/// is never sent to the store.
pub fn has_keys_to_delete(found: &Vec<String>) -> (r: bool)
    ensures
        r == (found@.len() > 0),
{
    found.len() > 0
}

/// Whether `key` is matched by the removal pattern `pattern`, where `*`
/// stands for any run of characters and every other character for itself.
/// The patterns this crate builds hold no other wildcard character.
pub open spec fn star_match(pattern: Seq<char>, key: Seq<char>) -> bool
    decreases pattern.len(), key.len(),
{
    if pattern.len() == 0 {
        key.len() == 0
    } else if pattern[0] == '*' {
        star_match(pattern.drop_first(), key) || (key.len() > 0 && star_match(
            pattern,
            key.drop_first(),
        ))
    } else {
        key.len() > 0 && key[0] == pattern[0] && star_match(
            pattern.drop_first(),
            key.drop_first(),
        )
    }
}

/// Whether `s` holds no `*`.
pub open spec fn no_star(s: Seq<char>) -> bool {
    forall|i: int| 0 <= i < s.len() ==> s[i] != '*'
}

/// A lone `*` matches every key.
pub proof fn lemma_star_matches_all(key: Seq<char>)
    ensures
        star_match(seq!['*'], key),
    decreases key.len(),
{
    assert(seq!['*'].drop_first() =~= Seq::<char>::empty());
    assert(seq!['*'][0] == '*');
    if key.len() > 0 {
        lemma_star_matches_all(key.drop_first());
    } else {
        assert(star_match(Seq::<char>::empty(), key));
    }
}

/// A common literal beginning can be taken off pattern and key alike.
pub proof fn lemma_literal_prefix(w: Seq<char>, pattern: Seq<char>, key: Seq<char>)
    requires
        no_star(w),
        star_match(pattern, key),
    ensures
        star_match(w + pattern, w + key),
    decreases w.len(),
{
    if w.len() > 0 {
        let rest = w.drop_first();
        lemma_literal_prefix(rest, pattern, key);
        assert((w + pattern).drop_first() =~= rest + pattern);
        assert((w + key).drop_first() =~= rest + key);
        assert((w + pattern)[0] == w[0]);
        assert((w + key)[0] == w[0]);
    } else {
        assert(w + pattern =~= pattern);
        assert(w + key =~= key);
    }
}

/// A leading `*` may swallow any run of the key.
pub proof fn lemma_star_skips(rest: Seq<char>, skipped: Seq<char>, key: Seq<char>)
    requires
        star_match(rest, key),
    ensures
        star_match(seq!['*'] + rest, skipped + key),
    decreases skipped.len(),
{
    let p = seq!['*'] + rest;
    assert(p.drop_first() =~= rest);
    if skipped.len() > 0 {
        lemma_star_skips(rest, skipped.drop_first(), key);
        assert((skipped + key).drop_first() =~= skipped.drop_first() + key);
    } else {
        assert(skipped + key =~= key);
    }
}

/// A pattern without wildcards matches exactly the key it spells.
pub proof fn lemma_literal_matches_itself(w: Seq<char>)
    requires
        no_star(w),
    ensures
        star_match(w, w),
{
    assert(star_match(Seq::<char>::empty(), Seq::<char>::empty()));
    lemma_literal_prefix(w, Seq::empty(), Seq::empty());
    assert(w + Seq::<char>::empty() =~= w);
}

/// No hexadecimal digit is a `*`.
pub proof fn lemma_hex_digits_no_star(v: nat, count: nat)
    ensures
        no_star(ids::hex_digits(v, count)),
        ids::hex_digits(v, count).len() == count,
    decreases count,
{
    if count > 0 {
        lemma_hex_digits_no_star(v / 16, (count - 1) as nat);
    }
}

/// The text of an identifier holds no `*`.
pub proof fn lemma_uuid_text_no_star(id: u128)
    ensures
        no_star(ids::uuid_text(id)),
{
    lemma_hex_digits_no_star(id as nat, 32);
    let h = ids::hex_digits(id as nat, 32);
    let t = ids::uuid_text(id);
    assert forall|i: int| 0 <= i < t.len() implies t[i] != '*' by {
        if i < 8 {
            assert(t[i] == h[i]);
        } else if i == 8 {
        } else if i < 13 {
            assert(t[i] == h[i - 1]);
        } else if i == 13 {
        } else if i < 18 {
            assert(t[i] == h[i - 2]);
        } else if i == 18 {
        } else if i < 23 {
            assert(t[i] == h[i - 3]);
        } else if i == 23 {
        } else {
            assert(t[i] == h[i - 4]);
        }
    }
}

/// The pattern `prefix<id>:*` removes every page key `prefix<id>:p..:l..`
/// of the same identifier, whatever page and page size it names.
pub proof fn lemma_id_pattern_covers_pages(prefix: Seq<char>, id: u128, page: int, limit: int)
    requires
        no_star(prefix),
    ensures
        star_match(keys::id_pattern(prefix, id), keys::page_key(prefix, id, page, limit)),
{
    reveal_strlit(":*");
    reveal_strlit(":p");
    lemma_uuid_text_no_star(id);
    let tail = "p"@ + text::signed_decimal(page) + ":l"@ + text::signed_decimal(limit);
    lemma_star_matches_all(tail);
    let w = prefix + ids::uuid_text(id) + seq![':'];
    assert(no_star(w)) by {
        assert forall|i: int| 0 <= i < w.len() implies w[i] != '*' by {
            if i < prefix.len() {
                assert(w[i] == prefix[i]);
            } else if i < prefix.len() + ids::uuid_text(id).len() {
                assert(w[i] == ids::uuid_text(id)[i - prefix.len()]);
            }
        }
    }
    lemma_literal_prefix(w, seq!['*'], tail);
    reveal_strlit("p");
    assert(w + seq!['*'] =~= keys::id_pattern(prefix, id));
    assert(w + tail =~= keys::page_key(prefix, id, page, limit));
}

/// The pattern `feed:*:*` removes every feed page key of every user.
pub proof fn lemma_all_feeds_pattern_covers_feeds(id: u128, page: int, limit: int)
    ensures
        star_match("feed:*:*"@, keys::page_key("feed:"@, id, page, limit)),
{
    reveal_strlit("feed:*:*");
    reveal_strlit("feed:");
    reveal_strlit(":p");
    reveal_strlit("p");
    let tail = "p"@ + text::signed_decimal(page) + ":l"@ + text::signed_decimal(limit);
    lemma_star_matches_all(tail);
    assert(no_star(seq![':'])) by {
        assert forall|i: int| 0 <= i < seq![':'].len() implies seq![':'][i] != '*' by {}
    }
    lemma_literal_prefix(seq![':'], seq!['*'], tail);
    assert(seq![':'] + seq!['*'] =~= seq![':', '*']);
    lemma_star_skips(seq![':', '*'], ids::uuid_text(id), seq![':'] + tail);
    let w = "feed:"@;
    assert(no_star(w)) by {
        assert forall|i: int| 0 <= i < w.len() implies w[i] != '*' by {}
    }
    assert(seq!['*'] + (seq![':'] + seq!['*']) =~= seq!['*', ':', '*']);
    lemma_literal_prefix(w, seq!['*', ':', '*'], ids::uuid_text(id) + (seq![':'] + tail));
    assert(w + seq!['*', ':', '*'] =~= "feed:*:*"@);
    assert(w + (ids::uuid_text(id) + (seq![':'] + tail)) =~= keys::page_key("feed:"@, id, page, limit));
}

/// The exact key `user:<id>` used as a removal pattern removes that key.
pub proof fn lemma_user_key_pattern_covers_itself(id: u128)
    ensures
        star_match(keys::id_key("user:"@, id), keys::id_key("user:"@, id)),
{
    reveal_strlit("user:");
    lemma_uuid_text_no_star(id);
    let w = keys::id_key("user:"@, id);
    assert(no_star(w)) by {
        assert forall|i: int| 0 <= i < w.len() implies w[i] != '*' by {
            if i >= 5 {
                assert(w[i] == ids::uuid_text(id)[i - 5]);
            }
        }
    }
    lemma_literal_matches_itself(w);
}

/// The prefixes of the removal patterns hold no `*`.
pub proof fn lemma_pattern_prefixes_have_no_star()
    ensures
        no_star("user:profile:"@),
        no_star("user:posts:"@),
        no_star("followers:"@),
        no_star("following:"@),
        no_star("feed:"@),
        no_star("comments:"@),
{
    reveal_strlit("user:profile:");
    reveal_strlit("user:posts:");
    reveal_strlit("followers:");
    reveal_strlit("following:");
    reveal_strlit("feed:");
    reveal_strlit("comments:");
    assert forall|i: int| 0 <= i < "user:profile:"@.len() implies "user:profile:"@[i] != '*' by {}
    assert forall|i: int| 0 <= i < "user:posts:"@.len() implies "user:posts:"@[i] != '*' by {}
    assert forall|i: int| 0 <= i < "followers:"@.len() implies "followers:"@[i] != '*' by {}
    assert forall|i: int| 0 <= i < "following:"@.len() implies "following:"@[i] != '*' by {}
    assert forall|i: int| 0 <= i < "feed:"@.len() implies "feed:"@[i] != '*' by {}
    assert forall|i: int| 0 <= i < "comments:"@.len() implies "comments:"@[i] != '*' by {}
}

/// A common literal beginning decides nothing: without it, pattern and key
/// match exactly when they matched with it.
pub proof fn lemma_literal_prefix_iff(w: Seq<char>, pattern: Seq<char>, key: Seq<char>)
    requires
        no_star(w),
    ensures
        star_match(w + pattern, w + key) == star_match(pattern, key),
    decreases w.len(),
{
    if w.len() > 0 {
        let rest = w.drop_first();
        lemma_literal_prefix_iff(rest, pattern, key);
        assert((w + pattern).drop_first() =~= rest + pattern);
        assert((w + key).drop_first() =~= rest + key);
        assert((w + pattern)[0] == w[0]);
        assert((w + key)[0] == w[0]);
    } else {
        assert(w + pattern =~= pattern);
        assert(w + key =~= key);
    }
}

/// The first character of an identifier's text is a hexadecimal digit.
pub proof fn lemma_uuid_text_starts_with_hex_digit(id: u128)
    ensures
        ids::uuid_text(id).len() == 36,
        ids::uuid_text(id)[0] == ids::hex_digits(id as nat, 32)[0],
        ids::uuid_text(id)[0] != '*',
        ids::uuid_text(id)[0] != 'p',
{
    lemma_hex_digits_no_star(id as nat, 32);
    lemma_hex_digits_are_hex(id as nat, 32);
}

/// Every hexadecimal digit is `0`-`9` or `a`-`f`.
pub proof fn lemma_hex_digits_are_hex(v: nat, count: nat)
    ensures
        forall|i: int| 0 <= i < count ==> #[trigger] ids::hex_digits(v, count)[i] != 'p',
    decreases count,
{
    if count > 0 {
        lemma_hex_digits_are_hex(v / 16, (count - 1) as nat);
        lemma_hex_digits_no_star(v / 16, (count - 1) as nat);
        lemma_hex_digits_no_star(v, count);
        let h = ids::hex_digits(v, count);
        let t = ids::hex_digits(v / 16, (count - 1) as nat);
        assert forall|i: int| 0 <= i < count implies #[trigger] h[i] != 'p' by {
            if i < count - 1 {
                assert(h[i] == t[i]);
            }
        }
    }
}

/// The pattern `comments:<id>:*` matches no key
/// `comments:post:<id>:p<page>:l<limit>`: removing it leaves every cached
/// page of a post's comments in place.
pub proof fn lemma_comments_pattern_misses_comment_pages(post: u128, page: int, limit: int)
    ensures
        !star_match(keys::id_pattern("comments:"@, post), keys::page_key("comments:post:"@, post, page, limit)),
{
    lemma_pattern_prefixes_have_no_star();
    reveal_strlit("comments:");
    reveal_strlit("comments:post:");
    reveal_strlit(":*");
    let w = "comments:"@;
    let u = ids::uuid_text(post);
    let rest_p = u + ":*"@;
    let rest_k = "post:"@ + u + ":p"@ + text::signed_decimal(page) + ":l"@ + text::signed_decimal(limit);
    reveal_strlit("post:");
    assert(w + rest_p =~= keys::id_pattern("comments:"@, post));
    assert("comments:post:"@ =~= w + "post:"@);
    assert(w + rest_k =~= keys::page_key("comments:post:"@, post, page, limit));
    lemma_literal_prefix_iff(w, rest_p, rest_k);
    lemma_uuid_text_starts_with_hex_digit(post);
    assert(rest_p[0] == u[0]);
    assert(rest_k[0] == 'p');
}

} // verus!

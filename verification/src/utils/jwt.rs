//! Contents of access and refresh tokens.
use crate::services::flow;
use crate::services::flow::{fail, fail_owned, fail_unexpected, succeed, Action, Body, Event, INTERNAL_SERVER_ERROR, UNAUTHORIZED};
use crate::utils::ids;
use crate::utils::ids::uuid_to_text;
use vstd::prelude::*;

verus! {

/// Seconds an access token stays valid after it is issued.
pub const ACCESS_TOKEN_LIFETIME_SECS: i64 = 3600;

/// The claims of an access token: `sub` and `id` both name the account.
pub struct Claims {
    pub id: String,
    pub sub: String,
    pub exp: usize,
}

/// The claims of a refresh token.
pub struct RefreshClaims {
    pub sub: String,
    pub exp: usize,
}

/// Expiry, in seconds since the Unix epoch, of an access token issued at
/// `now`, taken into a `usize` as `i64 as usize` does.
pub open spec fn access_expiry(now: i64) -> usize {
    (now + ACCESS_TOKEN_LIFETIME_SECS) as usize
}

fn expiry_from(now: i64) -> (r: usize)
    requires
        now + ACCESS_TOKEN_LIFETIME_SECS <= i64::MAX,
    ensures
        r == access_expiry(now),
{
    let t: i64 = now + ACCESS_TOKEN_LIFETIME_SECS;
    #[verifier::truncate]
    (t as usize)
}

/// Claims of the access token a login of account `user_id` receives at
/// `now`: both `sub` and `id` are the account's identifier text, which reads
/// back as the identifier.
pub fn access_claims_for_user(user_id: u128, now: i64) -> (c: Claims)
    requires
        now + ACCESS_TOKEN_LIFETIME_SECS <= i64::MAX,
    ensures
        c.sub@ == ids::uuid_text(user_id),
        c.id@ == ids::uuid_text(user_id),
        ids::uuid_parse(c.sub@) == Some(user_id),
        c.exp == access_expiry(now),
{
    let sub = uuid_to_text(user_id);
    let id = uuid_to_text(user_id);
    Claims { id, sub, exp: expiry_from(now) }
}

/// Claims of the access token that a valid refresh token buys at `now`: the
/// refresh token's subject becomes both `sub` and `id`.
pub fn refreshed_access_claims(refresh: RefreshClaims, now: i64) -> (c: Claims)
    requires
        now + ACCESS_TOKEN_LIFETIME_SECS <= i64::MAX,
    ensures
        c.sub == refresh.sub,
        c.id == refresh.sub,
        c.exp == access_expiry(now),
{
    let sub = refresh.sub;
    let id = sub.clone();
    Claims { id, sub, exp: expiry_from(now) }
}

/// Where the exchange of a refresh token stands.
pub enum RefreshTokenFlow {
    /// Asked to sign the new access token.
    Signing,
    /// Replied.
    Finished,
}

impl RefreshTokenFlow {
    /// Takes the signed access token, or the signer's failure (500).
    pub fn resume(self, ev: Event) -> (r: (RefreshTokenFlow, Action))
        requires
            self is Signing,
        ensures
            r.0 is Finished,
            match ev {
                Event::Token(t) => flow::succeeds_with(r.1, Body::AccessToken(t)),
                Event::Failed(_) => flow::fails_as_storage(r.1, ev),
                _ => flow::fails_unexpectedly(r.1),
            },
    {
        match ev {
            Event::Token(t) => (RefreshTokenFlow::Finished, succeed(Body::AccessToken(t))),
            Event::Failed(m) => (RefreshTokenFlow::Finished, fail_owned(INTERNAL_SERVER_ERROR, m)),
            _ => (RefreshTokenFlow::Finished, fail_unexpected()),
        }
    }
}

/// Starts the exchange of a refresh token at `now`. `decoded` is the
/// refresh token's claims when its signature and expiry check out, and
/// `None` otherwise, which ends the request with 401. A valid refresh token
/// buys an access token whose subject and `id` are the refresh token's
/// subject.
pub fn refresh_token(decoded: Option<RefreshClaims>, now: i64) -> (r: (RefreshTokenFlow, Action))
    requires
        now + ACCESS_TOKEN_LIFETIME_SECS <= i64::MAX,
    ensures
        decoded is None ==> r.0 is Finished && flow::fails_with(r.1, UNAUTHORIZED, "Invalid or expired refresh token"@),
        decoded matches Some(rc) ==> {
            &&& r.0 is Signing
            &&& r.1 matches Action::IssueToken(c)
            &&& c.sub == rc.sub
            &&& c.id == rc.sub
            &&& c.exp == access_expiry(now)
        },
{
    match decoded {
        None => (RefreshTokenFlow::Finished, fail(UNAUTHORIZED, "Invalid or expired refresh token")),
        Some(rc) => (RefreshTokenFlow::Signing, Action::IssueToken(refreshed_access_claims(rc, now))),
    }
}

} // verus!

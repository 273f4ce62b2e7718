//! Password hashing, done by the `bcrypt` crate.
use vstd::prelude::*;

verus! {

/// Work factor of the password hashes this service stores.
pub const HASH_COST: u32 = 12;

/// What `bcrypt::verify` answers for a password and a stored hash text:
/// whether they match, or the text of the error it reports.
pub uninterp spec fn bcrypt_verify_result(password: Seq<char>, hash: Seq<char>) -> Result<
    bool,
    Seq<char>,
>;

/// Calls `bcrypt::verify`. Claimed: the answer, with an error taken by its
/// `to_string` text, is the named result `bcrypt_verify_result` of the
/// password and the hash.
#[verifier::external_body]
pub fn verify_password(password: &str, hash: &str) -> (r: Result<bool, String>)
    ensures
        match r {
            Ok(b) => bcrypt_verify_result(password@, hash@) == Ok::<bool, Seq<char>>(b),
            Err(e) => bcrypt_verify_result(password@, hash@) == Err::<bool, Seq<char>>(e@),
        },
{
    match bcrypt::verify(password, hash) {
        Ok(b) => Ok(b),
        Err(e) => Err(e.to_string()),
    }
}

/// The text that every hash written by `bcrypt::hash` with cost `cost`
/// (from 4 to 31) begins with: `$2b$`, the cost in two decimal digits, and
/// `$`.
pub open spec fn bcrypt_prefix(cost: u32) -> Seq<char> {
    seq!['$', '2', 'b', '$'] + seq![
        crate::utils::text::digit_char((cost / 10) as nat),
        crate::utils::text::digit_char((cost % 10) as nat),
    ] + seq!['$']
}

/// What `bcrypt::hash` of `password` with cost `cost` may give back: a hash
/// that begins with the cost's prefix and that `bcrypt::verify` accepts
/// for the password, or an error, which always comes when the cost is
/// outside 4..=31.
pub open spec fn hashes_to(password: Seq<char>, cost: u32, r: Result<String, String>) -> bool {
    match r {
        Ok(h) => {
            &&& 4 <= cost <= 31
            &&& h@.len() >= 7
            &&& h@.subrange(0, 7) == bcrypt_prefix(cost)
            &&& bcrypt_verify_result(password, h@) == Ok::<bool, Seq<char>>(true)
        },
        Err(_) => true,
    }
}

/// Calls `bcrypt::hash`, which draws a random salt. Claimed: a hash it
/// returns is written as `$2b$`, the two-digit cost, `$`, then salt and
/// digest, and `bcrypt::verify` accepts it for the same password; a cost
/// outside 4..=31 always fails. It also fails when no randomness was
/// available, which nothing here can foresee; of the error only its text
/// comes back, and nothing is stated of that text.
#[verifier::external_body]
pub fn hash_password(password: &str, cost: u32) -> (r: Result<String, String>)
    ensures
        hashes_to(password@, cost, r),
{
    match bcrypt::hash(password, cost) {
        Ok(h) => Ok(h),
        Err(e) => Err(e.to_string()),
    }
}

} // verus!

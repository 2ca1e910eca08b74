//! Password storage: bcrypt hashing at the cost the server uses, and the
//! check made at login.

use vstd::prelude::*;
use crate::text::{digit_char, opt_text};

verus! {

/// The bcrypt cost factor the server hashes new passwords with.
pub const HASH_COST: u32 = 4;

/// What `bcrypt::verify(password, hash)` returns for a password (taken by
/// its UTF-8 bytes) and a stored hash: `Some(b)` for `Ok(b)`, `None` for an
/// error (a stored value that is not a well-formed bcrypt hash).
pub uninterp spec fn bcrypt_check(password: Seq<char>, hash: Seq<char>) -> Option<bool>;

/// The start of a bcrypt hash made with `cost` (4 to 31): the version
/// `$2b$`, the cost in two digits, and `$`.
pub open spec fn hash_prefix(cost: u32) -> Seq<char> {
    seq!['$', '2', 'b', '$', digit_char((cost / 10) as nat), digit_char((cost % 10) as nat), '$']
}

/// `bcrypt::hash(password, cost)`. The salt is random, so the hash differs
/// from call to call; it fails when the cost lies outside 4..=31 or the
/// system's random source fails. A hash it returns is one that `bcrypt::verify` accepts for the same
/// password: `verify` splits the `$2b$04$<salt><digest>` text, rehashes the
/// password with that cost and salt and compares digests.
#[verifier::external_body]
fn bcrypt_hash(password: &str, cost: u32) -> (r: Option<String>)
    ensures
        r matches Some(h) ==> {
            &&& bcrypt_check(password@, h@) == Some(true)
            &&& 4 <= cost <= 31
            &&& h@.len() == 60
            &&& h@.take(7) == hash_prefix(cost)
        },
{
    match bcrypt::hash(password, cost) {
        Ok(h) => Some(h),
        Err(_) => None,
    }
}

/// `bcrypt::verify(password, hash)`, with its error turned into `None`.
#[verifier::external_body]
fn bcrypt_verify(password: &str, hash: &str) -> (r: Option<bool>)
    ensures
        r == bcrypt_check(password@, hash@),
{
    match bcrypt::verify(password, hash) {
        Ok(b) => Some(b),
        Err(_) => None,
    }
}

/// A value hashing `password` at the server's cost can give: a
/// `$2b$04$` bcrypt hash of 60 characters that bcrypt accepts for it.
pub open spec fn is_server_hash(password: Seq<char>, h: Seq<char>) -> bool {
    &&& bcrypt_check(password, h) == Some(true)
    &&& h.len() == 60
    &&& h.take(7) == hash_prefix(HASH_COST)
}

/// The value stored for `password` once hashing it gave `hashed`: the hash,
/// or the password itself when hashing failed.
pub open spec fn stored_value_of(password: Seq<char>, hashed: Option<Seq<char>>) -> Seq<char> {
    match hashed {
        Some(h) => h,
        None => password,
    }
}

/// The value stored for `password` once hashing it gave `hashed`.
pub fn stored_value(password: &str, hashed: Option<String>) -> (r: String)
    ensures
        r@ == stored_value_of(password@, opt_text(hashed)),
{
    match hashed {
        Some(h) => h,
        None => password.to_string(),
    }
}

/// Whether `stored` is what the server stores for `password` for some
/// outcome of hashing it.
pub open spec fn stores_password(password: Seq<char>, stored: Seq<char>) -> bool {
    exists|hashed: Option<Seq<char>>|
        (hashed matches Some(h) ==> is_server_hash(password, h)) && stored
            == #[trigger] stored_value_of(password, hashed)
}

/// Hashes a new password at cost 4 and returns the value to store for it
/// (`stored_value` of the outcome). The salt is random, so which hash comes
/// back, and whether hashing fails, is left open.
pub fn stored_password(password: &str) -> (r: String)
    ensures
        stores_password(password@, r@),
{
    let hashed = bcrypt_hash(password, HASH_COST);
    let r = stored_value(password, hashed);
    assert(r@ == stored_value_of(password@, opt_text(hashed)));
    r
}

/// Whether a login password matches what is stored: a stored value bcrypt
/// cannot read counts as a mismatch.
pub fn password_matches(password: &str, stored: &str) -> (r: bool)
    ensures
        r == (bcrypt_check(password@, stored@) == Some(true)),
{
    match bcrypt_verify(password, stored) {
        Some(b) => b,
        None => false,
    }
}

} // verus!

//! Password hashing and verification.

use vstd::prelude::*;

verus! {

/// The cost factor with which passwords are hashed at rest.
pub const HASH_COST: u32 = 12;

#[verifier::external_type_specification]
#[verifier::external_body]
pub struct ExBcryptError(bcrypt::BcryptError);

/// What `bcrypt::verify` returns for a password and a stored hash: whether the
/// hash was made from the password, or `None` where the hash is malformed.
pub uninterp spec fn bcrypt_verify(password: Seq<char>, hash: Seq<char>) -> Option<bool>;

/// The cost factor that `bcrypt::HashParts::from_str` reads off a stored hash;
/// `None` where the text is no bcrypt hash.
pub uninterp spec fn bcrypt_cost(hash: Seq<char>) -> Option<u32>;

/// Calls `bcrypt::HashParts::from_str` (through `str::parse`), which splits
/// the stored hash into cost, salt and digest, and `HashParts::get_cost` on
/// what it returns. The result depends on the text alone.
#[verifier::external_body]
fn cost(hash: &str) -> (c: Option<u32>)
    ensures
        c == bcrypt_cost(hash@),
{
    match hash.parse::<bcrypt::HashParts>() {
        Ok(parts) => Some(parts.get_cost()),
        Err(_) => None,
    }
}

/// Calls `bcrypt::verify`, which splits the stored hash into cost, salt and
/// digest, hashes the password again with that cost and salt, and compares the
/// digests in constant time. The result depends on the two texts alone.
#[verifier::external_body]
fn verify(password: &str, hash: &str) -> (r: Result<bool, bcrypt::BcryptError>)
    ensures
        match r {
            Ok(b) => bcrypt_verify(password@, hash@) == Some(b),
            Err(_) => bcrypt_verify(password@, hash@) is None,
        },
{
    bcrypt::verify(password, hash)
}

/// Calls `bcrypt::hash`, which draws a random salt and hashes the password
/// with it. Which hash comes back is not determined; it fails when the cost
/// lies outside 4..=31 or no randomness can be had. A hash that it returns is
/// one that `bcrypt::verify` accepts for the same password, and it is written
/// with the cost it was made with, so that `HashParts::from_str` reads that
/// cost off it.
#[verifier::external_body]
fn hash(password: &str, cost: u32) -> (r: Result<String, bcrypt::BcryptError>)
    ensures
        r matches Ok(h) ==> 4 <= cost <= 31 && bcrypt_verify(password@, h@) == Some(true)
            && bcrypt_cost(h@) == Some(cost),
{
    bcrypt::hash(password, cost)
}

/// Whether `password` is the one from which the stored `hash` was made. A
/// hash that cannot be read matches no password.
pub open spec fn verifies(password: Seq<char>, hash: Seq<char>) -> bool {
    bcrypt_verify(password, hash) == Some(true)
}

/// Whether `hash` is a hash of `password` as it is kept at rest: one that
/// matches the password and was made with the cost factor `HASH_COST`.
pub open spec fn at_rest(password: Seq<char>, hash: Seq<char>) -> bool {
    verifies(password, hash) && bcrypt_cost(hash) == Some(HASH_COST)
}

/// The cost factor that a stored hash was made with; `None` where the text is
/// no bcrypt hash.
pub fn hash_cost(hash: &str) -> (c: Option<u32>)
    ensures
        c == bcrypt_cost(hash@),
{
    cost(hash)
}

/// Checks a password against a stored hash.
pub fn check_password(password: &str, hash: &str) -> (ok: bool)
    ensures
        ok == verifies(password@, hash@),
{
    match verify(password, hash) {
        Ok(b) => b,
        Err(_) => false,
    }
}

/// Hashes a password for storage with a fresh salt and the given cost factor,
/// or returns `None` where hashing failed. The hash returned matches the
/// password and carries the cost.
pub fn hash_password(password: &str, cost: u32) -> (h: Option<String>)
    ensures
        h matches Some(s) ==> verifies(password@, s@) && bcrypt_cost(s@) == Some(cost),
{
    match hash(password, cost) {
        Ok(s) => Some(s),
        Err(_) => None,
    }
}

} // verus!

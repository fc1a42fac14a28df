//! Password hashing and checking.
//!
//! The hash itself is the work of the `bcrypt` crate: salted, adaptive, with
//! salt and cost written into the hash string. This module fixes the cost
//! and turns every failure of a check into a plain "no".

use vstd::prelude::*;
use crate::records::{text_of, GetUserWithPassword};

verus! {

/// The cost factor of every hash made here.
pub const HASH_COST: u32 = 12;

/// The error type of the `bcrypt` crate, carried through unopened.
#[verifier::external_type_specification]
#[verifier::external_body]
pub struct ExBcryptError(bcrypt::BcryptError);

/// What `bcrypt::verify` returns for a password and a hash string: whether
/// they match, or `None` where it fails.
pub uninterp spec fn bcrypt_verification(password: Seq<char>, hash: Seq<char>) -> Option<bool>;

/// The password is the one the hash was made from, as far as bcrypt can tell.
pub open spec fn password_matches(password: Seq<char>, hash: Seq<char>) -> bool {
    bcrypt_verification(password, hash) == Some(true)
}

/// The length of a hash string: the version, the cost, 22 characters of salt
/// and 31 of hash.
pub const HASH_LENGTH: usize = 60;

/// How a hash string of version `2b` and cost [`HASH_COST`] begins.
pub open spec fn hash_prefix() -> Seq<char> {
    "$2b$12$"@
}

/// A hash string as this module makes them: of the length of all bcrypt
/// hashes, and with the version and the fixed cost written at its head.
pub open spec fn names_cost(hash: Seq<char>) -> bool {
    &&& hash.len() == HASH_LENGTH
    &&& hash.subrange(0, hash_prefix().len() as int) == hash_prefix()
}

/// A password could not be hashed.
#[derive(Debug, Clone, Copy, PartialEq, Eq, Structural)]
pub struct HashError;

/// Calls `bcrypt::hash`, which salts the password afresh on every call.
///
/// Trusted: `bcrypt::verify` accepts the password against a hash that comes
/// back. It reads cost and salt out of the hash string and repeats the same
/// computation. The hash string is written as `$2b$`, the cost in two
/// digits, `$`, the salt and the hash, 60 characters in all.
#[verifier::external_body]
fn bcrypt_hash(password: &str, cost: u32) -> (r: Result<String, bcrypt::BcryptError>)
    ensures
        r matches Ok(h) ==> bcrypt_verification(password@, h@) == Some(true),
        r matches Ok(h) ==> h@.len() == HASH_LENGTH,
        r matches Ok(h) ==> cost == 12 ==> h@.subrange(0, hash_prefix().len() as int)
            == hash_prefix(),
{
    bcrypt::hash(password, cost)
}

/// Calls `bcrypt::verify`.
///
/// Trusted: the result is a function of the password and the hash string
/// alone.
#[verifier::external_body]
fn bcrypt_verify(password: &str, hash: &str) -> (r: Result<bool, bcrypt::BcryptError>)
    ensures
        r matches Ok(b) ==> bcrypt_verification(password@, hash@) == Some(b),
        r is Err ==> bcrypt_verification(password@, hash@) is None,
{
    bcrypt::verify(password, hash)
}

/// Hashes a password at the fixed cost, with a fresh salt.
///
/// Two calls on one password give different hashes. Whatever comes back
/// matches the password it was made from, and carries its salt and the cost
/// with it. Hashing fails only where the system has no randomness to salt with.
pub fn hash_password(plaintext: &str) -> (r: Result<String, HashError>)
    ensures
        r matches Ok(h) ==> password_matches(plaintext@, h@),
        r matches Ok(h) ==> names_cost(h@),
{
    let made = match bcrypt_hash(plaintext, HASH_COST) {
        Ok(hash) => Some(hash),
        Err(_) => None,
    };
    hashed(made)
}

/// What a finished hashing comes to: the hash string as it was made, or an
/// error where none was made.
pub open spec fn hashing_outcome(made: Option<Seq<char>>) -> Result<Seq<char>, HashError> {
    match made {
        Some(hash) => Ok(hash),
        None => Err(HashError),
    }
}

/// What hashing returns, seen as plain values.
pub open spec fn hash_view(r: Result<String, HashError>) -> Result<Seq<char>, HashError> {
    match r {
        Ok(hash) => Ok(hash@),
        Err(e) => Err(e),
    }
}

/// Reads the outcome of a hashing: see [`hashing_outcome`]. A hash that was
/// made is handed on unchanged.
pub fn hashed(made: Option<String>) -> (r: Result<String, HashError>)
    ensures
        hash_view(r) == hashing_outcome(text_of(made)),
{
    match made {
        Some(hash) => Ok(hash),
        None => Err(HashError),
    }
}

/// The verdict on a finished check: a match counts, and a check that could
/// not be carried out counts as no match.
pub fn verdict(check: Option<bool>) -> (ok: bool)
    ensures
        ok == (check == Some(true)),
{
    match check {
        Some(matched) => matched,
        None => false,
    }
}

/// Checks a password against a stored hash. A hash that cannot be read is no
/// match; the caller never sees an error.
pub fn verify(plaintext: &str, stored_hash: &str) -> (ok: bool)
    ensures
        ok == password_matches(plaintext@, stored_hash@),
{
    let check = match bcrypt_verify(plaintext, stored_hash) {
        Ok(matched) => Some(matched),
        Err(_) => None,
    };
    verdict(check)
}

/// Checks a password against the hash in an account's credential record.
pub fn verify_password(password: &str, user: &GetUserWithPassword) -> (ok: bool)
    ensures
        ok == password_matches(password@, user.password@),
{
    verify(password, user.password.as_str())
}

} // verus!

//! Password hashing and checking, delegated to `bcrypt`.

use vstd::prelude::*;

verus! {

/// Whether `password` matches the bcrypt `hash`. Deterministic in the two
/// (the salt is part of the hash); a hash that bcrypt cannot read matches
/// nothing.
pub uninterp spec fn bcrypt_matches(password: Seq<char>, hash: Seq<char>) -> bool;

/// Relies on `bcrypt::hash` with the default cost: the produced hash
/// verifies against the hashed password. The hash itself is salted and so
/// not a function of the password. With the default cost the call fails
/// only if the system's randomness source does; this then panics, as the
/// reference behavior does.
#[verifier::external_body]
pub fn encrypt_password(password: String) -> (r: String)
    ensures
        bcrypt_matches(password@, r@),
{
    bcrypt::hash(password, bcrypt::DEFAULT_COST).expect("Failed to hash password")
}

/// Relies on `bcrypt::verify`: whether a password matches a hash depends
/// on the two alone. An error — a hash bcrypt cannot read — counts as no
/// match.
#[verifier::external_body]
pub fn verify_password(password: String, hash: &str) -> (r: bool)
    ensures
        r == bcrypt_matches(password@, hash@),
{
    bcrypt::verify(password, hash).unwrap_or(false)
}

} // verus!

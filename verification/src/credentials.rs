//! Credential verifier: email/password pairs against stored salted hashes.

use vstd::prelude::*;

verus! {

/// Whether `pass` matches the bcrypt hash `hash`. bcrypt verification is a
/// pure function of the password and the stored hash string (the salt is part
/// of the hash), so the result can be given a name; its pages-long definition
/// is not restated here.
pub uninterp spec fn bcrypt_matches(pass: Seq<char>, hash: Seq<char>) -> bool;

/// Cost factor used when hashing new passwords.
pub const HASH_COST: u32 = 12;

/// Relies on bcrypt::hash: a fresh salted hash of `pass` at the fixed cost.
/// The salt is random, so the hash value itself is not a function of the
/// arguments; what bcrypt guarantees of every outcome is that verifying the
/// same password against the produced hash succeeds, and that the hash has
/// the 60-character `$2b$` form — in particular it is never the plaintext of
/// a password of any other shape.
#[verifier::external_body]
pub fn hash_password(pass: &String) -> (r: Option<String>)
    ensures
        r matches Some(h) ==> bcrypt_matches(pass@, h@) && h@.len() == 60 && h@[0] == '$',
{
    bcrypt::hash(pass.as_str(), HASH_COST).ok()
}

/// Relies on bcrypt::verify: whether `pass` matches the stored hash. Returns
/// `None` when the stored string is not a well-formed bcrypt hash (an
/// internal error, not a credential mismatch); a matching pair in particular
/// has a well-formed hash, so verifying it succeeds and reports the match.
#[verifier::external_body]
pub fn verify_password(pass: &String, hash: &String) -> (r: Option<bool>)
    ensures
        r matches Some(b) ==> b == bcrypt_matches(pass@, hash@),
        bcrypt_matches(pass@, hash@) ==> r == Some(true),
{
    bcrypt::verify(pass.as_str(), hash.as_str()).ok()
}

} // verus!

//! Password hashing with bcrypt.

use vstd::prelude::*;

verus! {

/// bcrypt's error type, carried through opaquely.
#[verifier::external_type_specification]
#[verifier::external_body]
pub struct ExBcryptError(bcrypt::BcryptError);

/// Whether `bcrypt::verify(password, hash)` accepts: `hash` is a bcrypt hash
/// whose salt and cost, applied to `password`, give that hash again.
pub uninterp spec fn bcrypt_verifies(password: Seq<char>, hash: Seq<char>) -> bool;

/// Whether `hash` is a hash that `bcrypt::verify` can check: a `$`-separated
/// prefix 2a/2b/2x/2y, a cost that parses and lies in 4..=31, and 53
/// characters of salt and hash in bcrypt's base64 whose salt decodes to 16
/// bytes. Whether `verify` reports an error depends on the hash alone.
pub uninterp spec fn bcrypt_hash_ok(hash: Seq<char>) -> bool;

/// Calls `bcrypt::hash(password, bcrypt::DEFAULT_COST)`. The salt is
/// random, so the hash is not named; the contract claims that the hash is
/// one that `bcrypt::verify` can check (its `format` writes the prefix, the
/// cost, 22 characters of salt and 31 of hash) and that `verify` accepts the
/// password against it, as bcrypt recomputes the hash from the salt and
/// cost that it embeds. It fails only when the system's randomness does.
#[verifier::external_body]
pub(crate) fn hash_password(password: &str) -> (r: Result<String, bcrypt::BcryptError>)
    ensures
        r matches Ok(h) ==> bcrypt_hash_ok(h@) && bcrypt_verifies(password@, h@),
{
    bcrypt::hash(password, bcrypt::DEFAULT_COST)
}

/// Calls `bcrypt::verify(password, hash)`. The contract claims that it
/// answers exactly when the hash is one it can check (`bcrypt_hash_ok`;
/// every failure of `verify` comes from splitting or decoding the hash, or
/// from its cost), and that the answer is the one named by
/// `bcrypt_verifies`.
#[verifier::external_body]
pub(crate) fn verify_password(password: &str, hash: &str) -> (r: Result<bool, bcrypt::BcryptError>)
    ensures
        r is Ok <==> bcrypt_hash_ok(hash@),
        r matches Ok(b) ==> b == bcrypt_verifies(password@, hash@),
{
    bcrypt::verify(password, hash)
}

/// Calls `ToString::to_string` on a bcrypt error (its `Display`); nothing
/// is claimed of the text.
#[verifier::external_body]
pub(crate) fn bcrypt_error_text(e: &bcrypt::BcryptError) -> String {
    e.to_string()
}

} // verus!

//! Password hashing and verification, done by the `password-auth` crate.

use vstd::prelude::*;

verus! {

/// The longest password, in bytes, that the hasher accepts.
pub const MAX_PASSWORD_BYTES: usize = 0xFFFF_FFFF;

/// What checking a password against a stored hash can give.
#[derive(Clone, Copy, Debug, PartialEq, Eq, Structural)]
pub enum PasswordCheck {
    /// The password is the one that the hash was made from.
    Accepted,
    /// The hash is well formed and the password does not fit it.
    Rejected,
    /// The stored string is not a well-formed password hash.
    CorruptCredential,
}

/// The outcome of `password_auth::verify_password` on a password and a
/// stored hash string. It depends on these two values alone.
pub uninterp spec fn password_check(password: Seq<char>, hash: Seq<char>) -> PasswordCheck;

/// Calls `password_auth::generate_hash`, which salts the password with fresh
/// random bytes and hashes it with Argon2.
///
/// The salt differs from call to call, so the hash itself is not determined
/// by the password. Trusted: `password_auth::verify_password` accepts the
/// password against the hash that was made from it. The hasher fails on a
/// password longer than [`MAX_PASSWORD_BYTES`], which the precondition
/// leaves out.
#[verifier::external_body]
pub(crate) fn generate_hash(password: &str) -> (hash: String)
    requires
        vstd::utf8::encode_utf8(password@).len() <= MAX_PASSWORD_BYTES,
    ensures
        password_check(password@, hash@) == PasswordCheck::Accepted,
{
    password_auth::generate_hash(password)
}

/// Calls `password_auth::verify_password`, which parses the stored hash and
/// recomputes it from the password, comparing in constant time.
///
/// Trusted: the outcome is a function of the two strings. A hash string
/// that does not parse gives `CorruptCredential`, a password that does not
/// fit a well-formed hash gives `Rejected`.
#[verifier::external_body]
pub(crate) fn verify_password(password: &str, hash: &str) -> (outcome: PasswordCheck)
    ensures
        outcome == password_check(password@, hash@),
{
    match password_auth::verify_password(password, hash) {
        Ok(()) => PasswordCheck::Accepted,
        Err(password_auth::VerifyError::PasswordInvalid) => PasswordCheck::Rejected,
        Err(password_auth::VerifyError::Parse(_)) => PasswordCheck::CorruptCredential,
    }
}

} // verus!

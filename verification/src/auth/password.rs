//! One-way password hashing with bcrypt.

use vstd::prelude::*;
use crate::errors::AppError;

verus! {

/// The work factor of every hash this library makes: 2^12 rounds.
pub const HASH_COST: u32 = 12;

/// What bcrypt's check of a password against a hash comes to: `Some(true)`
/// for a match, `Some(false)` for none, `None` where the hash is not a
/// well-formed bcrypt hash.
pub uninterp spec fn bcrypt_verdict(password: Seq<char>, hash: Seq<char>) -> Option<bool>;

/// Whether the text has the length of a bcrypt hash and opens with the
/// marker of the version and of the cost, written with two digits.
pub open spec fn marks_cost(hash: Seq<char>, cost: u32) -> bool {
    &&& hash.len() == 60
    &&& hash[0] == '$'
    &&& hash[1] == '2'
    &&& hash[2] == 'b'
    &&& hash[3] == '$'
    &&& hash[4] as int == '0' as int + cost / 10
    &&& hash[5] as int == '0' as int + cost % 10
    &&& hash[6] == '$'
}

/// `bcrypt::hash`: draws a fresh salt and hashes the password at the given
/// cost. The hash differs from call to call. It is written as `$2b$`, the
/// cost in two digits, `$`, and 53 characters of salt and digest; and
/// `bcrypt::verify` accepts the password against it, since that function
/// reads cost and salt back from the hash and repeats the computation.
#[verifier::external_body]
fn bcrypt_hash(password: &str, cost: u32) -> (r: Result<String, bcrypt::BcryptError>)
    ensures
        r matches Ok(h) ==> marks_cost(h@, cost) && bcrypt_verdict(password@, h@) == Some(true),
{
    bcrypt::hash(password, cost)
}

/// `bcrypt::verify`: recomputes the hash of the password with the cost and
/// salt found in `hash` and compares. It fails where `hash` is malformed,
/// and only there: the password plays no part in whether it fails.
#[verifier::external_body]
fn bcrypt_verify(password: &str, hash: &str) -> (r: Result<bool, bcrypt::BcryptError>)
    ensures
        bcrypt_verdict(password@, hash@) == match r {
            Ok(b) => Some(b),
            Err(_) => None,
        },
        forall|other: Seq<char>| (#[trigger] bcrypt_verdict(other, hash@)) is Some <==> r is Ok,
{
    bcrypt::verify(password, hash)
}

/// What `hash_password` makes of the hasher's answer: the hash as it is,
/// and a failure as a hashing error.
pub fn hashing_outcome(hashed: Result<String, bcrypt::BcryptError>) -> (r: Result<String, AppError>)
    ensures
        match hashed {
            Ok(h) => r == Ok::<String, AppError>(h),
            Err(e) => r == Err::<String, AppError>(AppError::PasswordHashingError(e)),
        },
{
    match hashed {
        Ok(h) => Ok(h),
        Err(e) => Err(AppError::PasswordHashingError(e)),
    }
}

/// What hashing results in: a hash that names `HASH_COST` and verifies
/// against the password, or the hasher's failure.
pub open spec fn hashed(password: Seq<char>, r: Result<String, AppError>) -> bool {
    match r {
        Ok(h) => marks_cost(h@, HASH_COST) && bcrypt_verdict(password, h@) == Some(true),
        Err(e) => e is PasswordHashingError,
    }
}

/// What verifying results in: whether the password matches, or a hashing
/// failure exactly where the stored hash is malformed, which it is for
/// every password or for none.
pub open spec fn verified(password: Seq<char>, hash: Seq<char>, r: Result<bool, AppError>) -> bool {
    &&& match bcrypt_verdict(password, hash) {
        Some(b) => r == Ok::<bool, AppError>(b),
        None => r matches Err(e) && e is PasswordHashingError,
    }
    &&& forall|other: Seq<char>| (#[trigger] bcrypt_verdict(other, hash)) is Some <==> r is Ok
}

/// Hashes a password with a fresh random salt at `HASH_COST`.
///
/// The hash differs from call to call. Whatever comes back verifies against
/// the same password; the only failure is the hasher's own.
pub fn hash_password(password: &str) -> (r: Result<String, AppError>)
    ensures
        hashed(password@, r),
{
    hashing_outcome(bcrypt_hash(password, HASH_COST))
}

/// Checks a password against a stored hash.
pub fn verify_password(password: &str, hash: &str) -> (r: Result<bool, AppError>)
    ensures
        verified(password@, hash@, r),
{
    match bcrypt_verify(password, hash) {
        Ok(b) => Ok(b),
        Err(e) => Err(AppError::PasswordHashingError(e)),
    }
}

/// A hash made from a password verifies against that password: for every
/// password and every hash that `hash_password` can return for it,
/// `verify_password` answers `Ok(true)`.
pub proof fn lemma_hash_then_verify(
    password: Seq<char>,
    hash: Result<String, AppError>,
    check: Result<bool, AppError>,
)
    requires
        hashed(password, hash),
        hash is Ok,
        verified(password, hash->Ok_0@, check),
    ensures
        check == Ok::<bool, AppError>(true),
{
}

/// Another password is told apart: checked against a hash that
/// `hash_password` made, any text that bcrypt does not take for the
/// password gives `Ok(false)`, never a failure.
///
/// bcrypt takes a text for the password where both agree in their first 72
/// bytes, and where their digests under the hash's salt collide.
pub proof fn lemma_other_password_fails(
    password: Seq<char>,
    other: Seq<char>,
    hash: Result<String, AppError>,
    check: Result<bool, AppError>,
)
    requires
        hashed(password, hash),
        hash is Ok,
        verified(other, hash->Ok_0@, check),
        bcrypt_verdict(other, hash->Ok_0@) != Some(true),
    ensures
        check == Ok::<bool, AppError>(false),
{
    assert(bcrypt_verdict(password, hash->Ok_0@) is Some);
}

} // verus!

//! Password hashing: the boundary to bcrypt, and what the library makes of
//! bcrypt's answers.

use vstd::prelude::*;

verus! {

/// The work factor of every hash that the library computes. bcrypt runs
/// two to the power of this number of key expansions, so it sets what a
/// registration and a verification cost.
pub const HASH_COST: u32 = 4;

/// A failure inside the hashing backend, by the operation that met it.
#[derive(Clone, Copy, Debug, PartialEq, Eq, Structural)]
pub enum HashBackendFailure {
    /// No hash could be computed for a password.
    HashComputationError,
    /// A password could not be held against a stored hash, because the
    /// stored text is no bcrypt hash.
    HashVerificationError,
}

/// bcrypt's error type, carried through and never looked into.
#[verifier::external_type_specification]
#[verifier::external_body]
pub struct ExBcryptError(bcrypt::BcryptError);

/// What `bcrypt::verify` answers for a password and a hash text:
/// `Some(accepted)` where it returns `Ok(accepted)`, `None` where it returns
/// an error.
pub uninterp spec fn bcrypt_verdict(password: Seq<char>, hash: Seq<char>) -> Option<bool>;

/// The character that stands for a decimal digit.
pub open spec fn digit_char(digit: u32) -> char {
    if digit == 0 {
        '0'
    } else if digit == 1 {
        '1'
    } else if digit == 2 {
        '2'
    } else if digit == 3 {
        '3'
    } else if digit == 4 {
        '4'
    } else if digit == 5 {
        '5'
    } else if digit == 6 {
        '6'
    } else if digit == 7 {
        '7'
    } else if digit == 8 {
        '8'
    } else {
        '9'
    }
}

/// The shape of a bcrypt hash text of version 2b that was made with the
/// work factor `cost`: sixty characters, which begin with `$2b$`, the cost
/// in two decimal digits, and `$`.
pub open spec fn has_crypt_format(hash: Seq<char>, cost: u32) -> bool {
    &&& hash.len() == 60
    &&& hash[0] == '$'
    &&& hash[1] == '2'
    &&& hash[2] == 'b'
    &&& hash[3] == '$'
    &&& hash[4] == digit_char(cost / 10)
    &&& hash[5] == digit_char(cost % 10)
    &&& hash[6] == '$'
}

/// `hash` is a hash text that bcrypt made of `password` with the work
/// factor `cost`: it has the shape of one, bcrypt accepts `password` for it,
/// and bcrypt answers for every password that is held against it.
pub open spec fn is_hash_of(hash: Seq<char>, password: Seq<char>, cost: u32) -> bool {
    &&& has_crypt_format(hash, cost)
    &&& bcrypt_verdict(password, hash) == Some(true)
    &&& forall|other: Seq<char>| (#[trigger] bcrypt_verdict(other, hash)) is Some
}

/// What a verification returns for each answer of bcrypt.
pub open spec fn verification_result(verdict: Option<bool>) -> Result<bool, HashBackendFailure> {
    match verdict {
        Some(accepted) => Ok(accepted),
        None => Err(HashBackendFailure::HashVerificationError),
    }
}

/// Calls `bcrypt::hash`, which draws a fresh random salt, hashes the
/// password's bytes under it with the given cost, and returns the hash text.
///
/// Not proved, taken from bcrypt's source: a cost outside 4 to 31 is
/// refused; a hash text that is returned has sixty characters and begins
/// with `$2b$`, the cost in two digits, and `$`; `bcrypt::verify` reads from
/// it the cost and the salt it was made with, so it accepts the same
/// password for it, and answers without error for any other.
#[verifier::external_body]
fn bcrypt_hash(password: &str, cost: u32) -> (r: Result<String, bcrypt::BcryptError>)
    ensures
        r matches Ok(hash) ==> 4 <= cost <= 31 && is_hash_of(hash@, password@, cost),
{
    bcrypt::hash(password, cost)
}

/// Calls `bcrypt::verify`, which reads cost and salt from the hash text,
/// hashes the password's bytes under them, and compares the two digests in
/// constant time.
///
/// Not proved: that the answer depends on the two texts alone, which is
/// what gives it the name `bcrypt_verdict`.
#[verifier::external_body]
fn bcrypt_verify(password: &str, hash: &str) -> (r: Result<bool, bcrypt::BcryptError>)
    ensures
        bcrypt_verdict(password@, hash@) == (match r {
            Ok(accepted) => Some(accepted),
            Err(_) => None::<bool>,
        }),
{
    bcrypt::verify(password, hash)
}

/// Turns what bcrypt returned for a hash computation into the library's
/// terms: the hash text as it is, any error as `HashComputationError`.
pub fn hashing_outcome(raw: Result<String, bcrypt::BcryptError>) -> (r: Result<
    String,
    HashBackendFailure,
>)
    ensures
        r == (match raw {
            Ok(hash) => Ok::<String, HashBackendFailure>(hash),
            Err(_) => Err(HashBackendFailure::HashComputationError),
        }),
{
    match raw {
        Ok(hash) => Ok(hash),
        Err(_) => Err(HashBackendFailure::HashComputationError),
    }
}

/// Turns what bcrypt returned for a verification into the library's terms:
/// the answer as it is, any error as `HashVerificationError`.
pub fn verification_outcome(raw: Result<bool, bcrypt::BcryptError>) -> (r: Result<
    bool,
    HashBackendFailure,
>)
    ensures
        r == (match raw {
            Ok(accepted) => Ok::<bool, HashBackendFailure>(accepted),
            Err(_) => Err(HashBackendFailure::HashVerificationError),
        }),
{
    match raw {
        Ok(accepted) => Ok(accepted),
        Err(_) => Err(HashBackendFailure::HashVerificationError),
    }
}

/// Hashes a password under a fresh salt, with the work factor `HASH_COST`.
///
/// The salt is random, so the hash text differs from call to call. Whatever
/// it is, it is a hash of this password under that work factor. The only
/// failure is the backend's, and it is reported as `HashComputationError`.
pub fn hash_password(password: &str) -> (r: Result<String, HashBackendFailure>)
    ensures
        match r {
            Ok(hash) => is_hash_of(hash@, password@, HASH_COST),
            Err(failure) => failure == HashBackendFailure::HashComputationError,
        },
{
    hashing_outcome(bcrypt_hash(password, HASH_COST))
}

/// Holds a password against a hash text with bcrypt's own comparison.
///
/// Returns bcrypt's answer, or `HashVerificationError` where bcrypt cannot
/// read the text as a hash.
pub fn verify_password(password: &str, hash: &str) -> (r: Result<bool, HashBackendFailure>)
    ensures
        r == verification_result(bcrypt_verdict(password@, hash@)),
{
    verification_outcome(bcrypt_verify(password, hash))
}

} // verus!

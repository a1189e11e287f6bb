//! One-way password hashing and verification: a memory-hard hash with
//! a fresh random salt per call, and constant-time verification against
//! the self-describing encoded form.

use crate::account::Account;
use crate::error::Error;
use vstd::prelude::*;
use vstd::utf8::encode_utf8;

verus! {

/// The longest byte string the hashing function accepts.
pub const MAX_PASSWORD_BYTES: u64 = 0xffff_ffff;

/// What the memory-hard hash encodes for a password and salt under the
/// default cost configuration: parameters, salt and digest in one
/// self-describing string.
pub uninterp spec fn argon2_encoded(password: Seq<u8>, salt: Seq<u8>) -> Seq<char>;

/// What verification of an encoded hash against a password yields:
/// nothing when the encoded hash cannot be decoded, otherwise whether
/// the recomputed digest matches.
pub uninterp spec fn argon2_verify_result(hash: Seq<char>, password: Seq<u8>) -> Option<bool>;

/// An encoded hash matches a password when verification accepts it.
pub open spec fn password_matches(hash: Seq<char>, password: Seq<u8>) -> bool {
    argon2_verify_result(hash, password) == Some(true)
}

/// An encoded hash of a password under some fresh 32-byte salt.
pub open spec fn is_hash_of(hash: Seq<char>, password: Seq<u8>) -> bool {
    exists|salt: Seq<u8>| salt.len() == 32 && hash == #[trigger] argon2_encoded(password, salt)
}

/// Relies on rand::random for a fresh 32-byte salt; nothing is
/// promised of its value.
#[verifier::external_body]
fn random_salt() -> (r: Vec<u8>)
    ensures
        r@.len() == 32,
{
    rand::random::<[u8; 32]>().to_vec()
}

/// Relies on argon2::hash_encoded of rust-argon2, under its default
/// configuration: with a salt of valid length and a password no longer
/// than the library's limit it succeeds, its result is a function of
/// password and salt alone, and verifying that result against the same
/// password accepts — the library recomputes the digest from the
/// parameters and salt embedded in the encoded string.
#[verifier::external_body]
fn argon2_hash(password: &[u8], salt: &Vec<u8>) -> (r: String)
    requires
        8 <= salt@.len() <= 0xffff_ffff,
        password@.len() <= MAX_PASSWORD_BYTES,
    ensures
        r@ == argon2_encoded(password@, salt@),
        argon2_verify_result(r@, password@) == Some(true),
{
    argon2::hash_encoded(password, salt.as_slice(), &argon2::Config::default()).expect(
        "hashing cannot fail on a valid salt",
    )
}

/// Relies on argon2::verify_encoded of rust-argon2: it decodes the
/// encoded hash and recomputes the digest, a pure function of hash and
/// password, erring exactly when the encoded hash does not decode into
/// valid parameters.
#[verifier::external_body]
fn argon2_verify(hash: &str, password: &[u8]) -> (r: Option<bool>)
    ensures
        r == argon2_verify_result(hash@, password@),
{
    argon2::verify_encoded(hash, password).ok()
}

/// Hashes a password under a fresh random salt. The result always
/// verifies against the password it was derived from.
pub fn hash_password(password: &[u8]) -> (r: String)
    requires
        password@.len() <= MAX_PASSWORD_BYTES,
    ensures
        is_hash_of(r@, password@),
        password_matches(r@, password@),
{
    let salt = random_salt();
    argon2_hash(password, &salt)
}

/// Verifies a password against an encoded hash: a mismatch is a
/// `false`, not an error; only a malformed encoded hash is an error.
pub fn verify_password(hash: &str, password: &[u8]) -> (r: Result<bool, Error>)
    ensures
        r == (match argon2_verify_result(hash@, password@) {
            Some(b) => Ok::<bool, Error>(b),
            None => Err::<bool, Error>(Error::HashingFailure),
        }),
{
    match argon2_verify(hash, password) {
        Some(b) => Ok(b),
        None => Err(Error::HashingFailure),
    }
}

/// Prepares a submitted account for storage: the password field is
/// replaced by its encoded hash, everything else kept; the raw
/// submission is refused only when it exceeds the hashing limit.
pub fn prepare_account(account: Account) -> (r: Result<Account, Error>)
    ensures
        match r {
            Ok(a) => {
                &&& encode_utf8(account.password@).len() <= MAX_PASSWORD_BYTES
                &&& a.id == account.id
                &&& a.email == account.email
                &&& is_hash_of(a.password@, encode_utf8(account.password@))
                &&& password_matches(a.password@, encode_utf8(account.password@))
            },
            Err(e) => e == Error::HashingFailure && encode_utf8(account.password@).len()
                > MAX_PASSWORD_BYTES,
        },
{
    let bytes = account.password.as_str().as_bytes();
    if bytes.len() as u64 > MAX_PASSWORD_BYTES {
        return Err(Error::HashingFailure);
    }
    let hashed = hash_password(bytes);
    Ok(Account { id: account.id, email: account.email, password: hashed })
}

} // verus!

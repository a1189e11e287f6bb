//! Authentication decisions: per-request identity extraction and the
//! login check. A request carries its bearer token in one header; an
//! absent or invalid credential rejects the request before any handler
//! runs, and an unknown email is indistinguishable from a wrong
//! password.

use crate::account::{Account, Session};
use crate::error::Error;
use crate::password::{argon2_verify_result, verify_password};
use crate::token::{issued_token_ok, validate_spec, TokenCodec, TOKEN_LIFETIME_SECONDS};
use vstd::prelude::*;
use vstd::utf8::encode_utf8;

verus! {

/// The authentication gate every protected route runs first: the
/// bearer header must be present and its token must validate at `now`.
/// A missing header is an authorization failure; an invalid token is
/// the opaque token error.
pub fn authenticate(codec: &TokenCodec, header: Option<&String>, now: i64) -> (r: Result<
    Session,
    Error,
>)
    requires
        codec.wf(),
    ensures
        r == (match header {
            Some(h) => validate_spec(codec.key_view(), h@, now),
            None => Err::<Session, Error>(Error::Unauthorized),
        }),
{
    match header {
        Some(h) => codec.validate_at(h.as_str(), now),
        None => Err(Error::Unauthorized),
    }
}

/// The login decision, once storage has produced the account stored
/// under the submitted email: verify the submitted password against
/// the stored hash, and issue a token on a match. A mismatch is a
/// wrong-password error; a stored hash that cannot be decoded is a
/// hashing failure; a sealing failure of the cipher itself is a
/// token-creation failure.
pub fn login_with_account(codec: &TokenCodec, stored: &Account, password: &str, now: i64) -> (r:
    Result<String, Error>)
    requires
        codec.wf(),
        stored.id is Some,
        0 <= now <= i64::MAX - TOKEN_LIFETIME_SECONDS,
    ensures
        match r {
            Ok(t) => {
                &&& argon2_verify_result(stored.password@, encode_utf8(password@)) == Some(true)
                &&& (stored.id matches Some(aid) && issued_token_ok(
                    codec.key_view(),
                    t@,
                    aid,
                    now,
                ))
            },
            Err(e) => {
                ||| (e == Error::WrongPassword && argon2_verify_result(
                    stored.password@,
                    encode_utf8(password@),
                ) == Some(false))
                ||| (e == Error::HashingFailure && argon2_verify_result(
                    stored.password@,
                    encode_utf8(password@),
                ) is None)
                ||| (e == Error::TokenCreation && argon2_verify_result(
                    stored.password@,
                    encode_utf8(password@),
                ) == Some(true))
            },
        },
{
    match verify_password(stored.password.as_str(), password.as_bytes()) {
        Ok(verified) => {
            if verified {
                let account_id = match stored.id {
                    Some(id) => id,
                    None => {
                        assert(false);
                        crate::account::AccountId(0)
                    },
                };
                match codec.issue_at(account_id, now) {
                    Some(t) => Ok(t),
                    None => Err(Error::TokenCreation),
                }
            } else {
                Err(Error::WrongPassword)
            }
        },
        Err(e) => Err(e),
    }
}

/// The login decision over the whole lookup outcome: an email that
/// names no account fails exactly as a wrong password does, so a
/// caller cannot probe which addresses are registered.
pub fn login_lookup(codec: &TokenCodec, found: Option<&Account>, password: &str, now: i64) -> (r:
    Result<String, Error>)
    requires
        codec.wf(),
        found matches Some(a) ==> a.id is Some,
        0 <= now <= i64::MAX - TOKEN_LIFETIME_SECONDS,
    ensures
        match found {
            None => r == Err::<String, Error>(Error::WrongPassword),
            Some(stored) => match r {
                Ok(t) => {
                    &&& argon2_verify_result(stored.password@, encode_utf8(password@)) == Some(true)
                    &&& (stored.id matches Some(aid) && issued_token_ok(
                        codec.key_view(),
                        t@,
                        aid,
                        now,
                    ))
                },
                Err(e) => {
                    ||| (e == Error::WrongPassword && argon2_verify_result(
                        stored.password@,
                        encode_utf8(password@),
                    ) == Some(false))
                    ||| (e == Error::HashingFailure && argon2_verify_result(
                        stored.password@,
                        encode_utf8(password@),
                    ) is None)
                    ||| (e == Error::TokenCreation && argon2_verify_result(
                        stored.password@,
                        encode_utf8(password@),
                    ) == Some(true))
                },
            },
        },
{
    match found {
        Some(stored) => login_with_account(codec, stored, password, now),
        None => Err(Error::WrongPassword),
    }
}

} // verus!

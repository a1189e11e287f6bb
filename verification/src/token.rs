//! The session token codec: the only holder of the symmetric key.
//! Issuing seals a claims text into an authenticated, encrypted token;
//! validation opens it and checks the validity window. Every failure
//! collapses into the one opaque token error, so a caller can never
//! tell a forged token from a malformed or an expired one.

use crate::account::{AccountId, Session};
use crate::claims::{
    claims_seq, claims_string, find_char, find_char_at, lemma_claims_complete, lemma_claims_sound,
    parse_claims, parse_claims_spec, str_eq,
};
use crate::error::Error;
use vstd::prelude::*;
use vstd::string::*;

verus! {

/// How long a token stays valid, in seconds: a day.
pub const TOKEN_LIFETIME_SECONDS: i64 = 86400;

/// What the decryption of a token under a key yields. Decryption is a
/// pure function of key and token; only sealing draws randomness.
pub uninterp spec fn paseto_plaintext(key: Seq<u8>, token: Seq<char>) -> Option<Seq<char>>;

/// What URL-safe unpadded base64 decoding yields on a string.
pub uninterp spec fn b64url_decoded(s: Seq<char>) -> Option<Seq<u8>>;

/// The shape a well-formed token has: a `v2` version part, a `local`
/// purpose part, and a payload part whose base64 decoding is at least
/// as long as the nonce that must lead it.
pub open spec fn token_shape_ok(t: Seq<char>) -> bool {
    let d0 = find_char(t, '.', 0);
    let d1 = find_char(t, '.', d0 + 1);
    let d2 = find_char(t, '.', d1 + 1);
    &&& d0 < t.len()
    &&& d1 < t.len()
    &&& t.subrange(0, d0) == "v2"@
    &&& t.subrange(d0 + 1, d1) == "local"@
    &&& (match b64url_decoded(t.subrange(d1 + 1, d2)) {
        Some(d) => d.len() >= 24,
        None => false,
    })
}

/// Relies on base64::decode_config with the URL_SAFE_NO_PAD alphabet:
/// the result depends on the input characters alone, and the function
/// returns on every string a slice can hold.
#[verifier::external_body]
fn b64url_decode(s: &str) -> (r: Option<Vec<u8>>)
    ensures
        match r {
            Some(v) => b64url_decoded(s@) == Some(v@),
            None => b64url_decoded(s@) is None,
        },
{
    base64::decode_config(s, base64::URL_SAFE_NO_PAD).ok()
}

/// Relies on paseto::v2::local::local_paseto, and on base64 encoding
/// and decoding being inverse under one configuration: a token is
/// `v2.local.` followed by the URL-safe base64 of a 24-byte nonce and
/// the ciphertext, an alphabet without dots, so it has the well-formed
/// shape; and decrypting it under the sealing key yields the message
/// back, the round trip of authenticated encryption.
#[verifier::external_body]
fn paseto_seal(msg: &str, key: &Vec<u8>) -> (r: Option<String>)
    requires
        key@.len() == 32,
    ensures
        match r {
            Some(t) => paseto_plaintext(key@, t@) == Some(msg@) && token_shape_ok(t@),
            None => true,
        },
{
    paseto::v2::local::local_paseto(msg, None, key.as_slice()).ok()
}

/// Relies on paseto::v2::local::decrypt_paseto: decryption, a pure
/// function of token and key. The shape requirement keeps the call
/// away from the payload split that the library performs without
/// checking the decoded length first, which would otherwise panic.
#[verifier::external_body]
fn paseto_open(token: &str, key: &Vec<u8>) -> (r: Option<String>)
    requires
        key@.len() == 32,
        token_shape_ok(token@),
    ensures
        match r {
            Some(p) => paseto_plaintext(key@, token@) == Some(p@),
            None => paseto_plaintext(key@, token@) is None,
        },
{
    paseto::v2::local::decrypt_paseto(token, None, key.as_slice()).ok()
}

/// Relies on chrono::Utc::now for the current moment, as seconds since
/// the Unix epoch; nothing is promised of a clock reading.
#[verifier::external_body]
fn now_unix_seconds() -> i64 {
    chrono::Utc::now().timestamp()
}

/// A token issued at `now` for `account_id` under `key`: it decrypts
/// to the canonical claims text for a window of one day from `now`.
pub open spec fn issued_token_ok(key: Seq<u8>, t: Seq<char>, account_id: AccountId, now: i64) -> bool {
    &&& token_shape_ok(t)
    &&& paseto_plaintext(key, t) == Some(
        claims_seq(account_id.0 as int, now + TOKEN_LIFETIME_SECONDS, now as int),
    )
}

/// What validation returns at instant `now`: the session carried by
/// the token when it decrypts, parses, and the window contains `now`;
/// the one opaque error in every other case.
pub open spec fn validate_spec(key: Seq<u8>, token: Seq<char>, now: i64) -> Result<Session, Error> {
    if !token_shape_ok(token) {
        Err(Error::CannotDecryptToken)
    } else {
        match paseto_plaintext(key, token) {
            None => Err(Error::CannotDecryptToken),
            Some(payload) => match parse_claims_spec(payload) {
                None => Err(Error::CannotDecryptToken),
                Some((id, exp, nbf)) => if nbf <= now <= exp {
                    Ok(
                        Session {
                            exp: exp as i64,
                            account_id: AccountId(id as i32),
                            nbf: nbf as i64,
                        },
                    )
                } else {
                    Err(Error::CannotDecryptToken)
                },
            },
        }
    }
}

/// The session token codec. It alone holds the symmetric key, which is
/// handed in once at construction and never exposed.
#[derive(Debug, Clone)]
pub struct TokenCodec {
    key: Vec<u8>,
}

impl TokenCodec {
    /// The key has the length the sealing cipher demands.
    pub closed spec fn wf(&self) -> bool {
        self.key@.len() == 32
    }

    /// The key this codec seals and opens with.
    pub closed spec fn key_view(&self) -> Seq<u8> {
        self.key@
    }

    /// Accepts a key of exactly 32 bytes; refuses anything else.
    pub fn new(key: Vec<u8>) -> (r: Option<TokenCodec>)
        ensures
            match r {
                Some(c) => c.wf() && c.key_view() == key@ && key@.len() == 32,
                None => key@.len() != 32,
            },
    {
        if key.len() == 32 {
            Some(TokenCodec { key })
        } else {
            None
        }
    }

    /// Issues a token for `account_id` as of instant `now`, valid for
    /// one day. `None` only when the sealing cipher itself fails.
    pub fn issue_at(&self, account_id: AccountId, now: i64) -> (r: Option<String>)
        requires
            self.wf(),
            0 <= now <= i64::MAX - TOKEN_LIFETIME_SECONDS,
        ensures
            match r {
                Some(t) => issued_token_ok(self.key_view(), t@, account_id, now),
                None => true,
            },
    {
        let msg = claims_string(account_id.0, now + TOKEN_LIFETIME_SECONDS, now);
        paseto_seal(msg.as_str(), &self.key)
    }

    /// Issues a token for `account_id` as of the present moment.
    pub fn issue(&self, account_id: AccountId) -> (r: Option<String>)
        requires
            self.wf(),
        ensures
            match r {
                Some(t) => exists|now: i64|
                    0 <= now && #[trigger] issued_token_ok(self.key_view(), t@, account_id, now),
                None => true,
            },
    {
        let now = now_unix_seconds();
        if now < 0 || now > i64::MAX - TOKEN_LIFETIME_SECONDS {
            return None;
        }
        self.issue_at(account_id, now)
    }

    /// Validates a token as of instant `now`.
    pub fn validate_at(&self, token: &str, now: i64) -> (r: Result<Session, Error>)
        requires
            self.wf(),
        ensures
            r == validate_spec(self.key_view(), token@, now),
    {
        let n = token.unicode_len();
        let d0 = find_char_at(token, 0, '.');
        if d0 >= n {
            return Err(Error::CannotDecryptToken);
        }
        let d1 = find_char_at(token, d0 + 1, '.');
        if d1 >= n {
            return Err(Error::CannotDecryptToken);
        }
        let d2 = find_char_at(token, d1 + 1, '.');
        let p0 = token.substring_char(0, d0);
        if !str_eq(p0, "v2") {
            return Err(Error::CannotDecryptToken);
        }
        let p1 = token.substring_char(d0 + 1, d1);
        if !str_eq(p1, "local") {
            return Err(Error::CannotDecryptToken);
        }
        let p2 = token.substring_char(d1 + 1, d2);
        let decoded = b64url_decode(p2);
        match decoded {
            None => Err(Error::CannotDecryptToken),
            Some(d) => {
                if d.len() < 24 {
                    return Err(Error::CannotDecryptToken);
                }
                match paseto_open(token, &self.key) {
                    None => Err(Error::CannotDecryptToken),
                    Some(payload) => {
                        match parse_claims(payload.as_str()) {
                            None => Err(Error::CannotDecryptToken),
                            Some((id, exp, nbf)) => {
                                if nbf <= now && now <= exp {
                                    Ok(Session { exp, account_id: AccountId(id), nbf })
                                } else {
                                    Err(Error::CannotDecryptToken)
                                }
                            },
                        }
                    },
                }
            },
        }
    }

    /// Validates a token as of the present moment.
    pub fn validate(&self, token: &str) -> (r: Result<Session, Error>)
        requires
            self.wf(),
        ensures
            exists|now: i64| r == #[trigger] validate_spec(self.key_view(), token@, now),
    {
        let now = now_unix_seconds();
        let r = self.validate_at(token, now);
        proof {
            assert(r == validate_spec(self.key_view(), token@, now));
        }
        r
    }
}

/// Validation is opaque about its reason: whatever the token, the key
/// and the instant, it either yields a session or the one token error.
pub proof fn lemma_validate_opaque(key: Seq<u8>, token: Seq<char>, now: i64)
    ensures
        validate_spec(key, token, now) is Ok || validate_spec(key, token, now) == Err::<
            Session,
            Error,
        >(Error::CannotDecryptToken),
{
}

/// A freshly issued token validates, at any instant inside its window,
/// to a session for exactly the issuing account, expiring a day after
/// issuance.
pub proof fn lemma_validate_after_issue(
    key: Seq<u8>,
    token: Seq<char>,
    account_id: AccountId,
    now: i64,
    at: i64,
)
    requires
        0 <= now <= i64::MAX - TOKEN_LIFETIME_SECONDS,
        issued_token_ok(key, token, account_id, now),
        now <= at <= now + TOKEN_LIFETIME_SECONDS,
    ensures
        validate_spec(key, token, at) == Ok::<Session, Error>(
            Session {
                exp: (now + TOKEN_LIFETIME_SECONDS) as i64,
                account_id,
                nbf: now,
            },
        ),
{
    lemma_claims_complete(account_id.0 as int, now + TOKEN_LIFETIME_SECONDS, now as int);
}

/// A session is never invented: whenever validation yields one, the
/// token decrypts to exactly that session's claims, and the instant of
/// validation lies inside the session's window.
pub proof fn lemma_session_only_from_its_token(key: Seq<u8>, token: Seq<char>, now: i64, s: Session)
    requires
        validate_spec(key, token, now) == Ok::<Session, Error>(s),
    ensures
        paseto_plaintext(key, token) == Some(
            claims_seq(s.account_id.0 as int, s.exp as int, s.nbf as int),
        ),
        s.nbf <= now <= s.exp,
{
    let payload = paseto_plaintext(key, token).unwrap();
    let (id, exp, nbf) = parse_claims_spec(payload).unwrap();
    lemma_claims_sound(payload, id, exp, nbf);
}

/// Outside its window — before issuance or after expiry — an issued
/// token is refused with the same opaque error as a forged one.
pub proof fn lemma_outside_window_rejected(
    key: Seq<u8>,
    token: Seq<char>,
    account_id: AccountId,
    now: i64,
    at: i64,
)
    requires
        0 <= now <= i64::MAX - TOKEN_LIFETIME_SECONDS,
        issued_token_ok(key, token, account_id, now),
        at < now || at > now + TOKEN_LIFETIME_SECONDS,
    ensures
        validate_spec(key, token, at) == Err::<Session, Error>(Error::CannotDecryptToken),
{
    lemma_claims_complete(account_id.0 as int, now + TOKEN_LIFETIME_SECONDS, now as int);
}

} // verus!

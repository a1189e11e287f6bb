use eroteme::account::AccountId;
use eroteme::error::Error;
use eroteme::token::{TokenCodec, TOKEN_LIFETIME_SECONDS};

fn codec() -> TokenCodec {
    TokenCodec::new(b"RANDOM WORDS WINTER MACINTOSH PC".to_vec()).unwrap()
}

#[test]
fn a_key_of_the_wrong_length_is_refused() {
    assert!(TokenCodec::new(b"short".to_vec()).is_none());
    assert!(TokenCodec::new(b"RANDOM WORDS WINTER MACINTOSH PC".to_vec()).is_some());
}

#[test]
fn a_fresh_token_validates_to_its_account() {
    let codec = codec();
    let now: i64 = 1_700_000_000;
    let token = codec.issue_at(AccountId(42), now).unwrap();
    let session = codec.validate_at(&token, now).unwrap();
    assert_eq!(session.account_id, AccountId(42));
    assert_eq!(session.nbf, now);
    assert_eq!(session.exp, now + TOKEN_LIFETIME_SECONDS);
}

#[test]
fn a_token_stays_valid_through_its_whole_window() {
    let codec = codec();
    let now: i64 = 1_700_000_000;
    let token = codec.issue_at(AccountId(-3), now).unwrap();
    let at_the_edge = codec.validate_at(&token, now + TOKEN_LIFETIME_SECONDS).unwrap();
    assert_eq!(at_the_edge.account_id, AccountId(-3));
}

#[test]
fn an_expired_token_yields_the_opaque_error() {
    let codec = codec();
    let now: i64 = 1_700_000_000;
    let token = codec.issue_at(AccountId(42), now).unwrap();
    let r = codec.validate_at(&token, now + TOKEN_LIFETIME_SECONDS + 1);
    assert_eq!(r, Err(Error::CannotDecryptToken));
}

#[test]
fn a_token_used_before_its_window_yields_the_opaque_error() {
    let codec = codec();
    let now: i64 = 1_700_000_000;
    let token = codec.issue_at(AccountId(42), now).unwrap();
    assert_eq!(codec.validate_at(&token, now - 1), Err(Error::CannotDecryptToken));
}

#[test]
fn any_single_character_mutation_yields_the_opaque_error() {
    let codec = codec();
    let now: i64 = 1_700_000_000;
    let token = codec.issue_at(AccountId(42), now).unwrap();
    let chars: Vec<char> = token.chars().collect();
    for i in 0..chars.len() {
        let mut mutated = chars.clone();
        mutated[i] = if mutated[i] == 'A' { 'B' } else { 'A' };
        let mutated: String = mutated.into_iter().collect();
        assert_eq!(
            codec.validate_at(&mutated, now),
            Err(Error::CannotDecryptToken),
            "mutation at position {i} was accepted"
        );
    }
}

#[test]
fn a_token_under_another_key_yields_the_opaque_error() {
    let codec = codec();
    let other = TokenCodec::new(b"RANDOM WORDS SUMMER MACINTOSH PC".to_vec()).unwrap();
    let now: i64 = 1_700_000_000;
    let token = codec.issue_at(AccountId(42), now).unwrap();
    assert_eq!(other.validate_at(&token, now), Err(Error::CannotDecryptToken));
}

#[test]
fn garbage_yields_the_opaque_error() {
    let codec = codec();
    assert_eq!(codec.validate_at("", 0), Err(Error::CannotDecryptToken));
    assert_eq!(codec.validate_at("v2.local", 0), Err(Error::CannotDecryptToken));
    assert_eq!(codec.validate_at("v2.local.AAAA", 0), Err(Error::CannotDecryptToken));
    assert_eq!(codec.validate_at("v1.local.AAAA.BBBB", 0), Err(Error::CannotDecryptToken));
    assert_eq!(codec.validate_at("not a token at all", 0), Err(Error::CannotDecryptToken));
}

#[test]
fn issue_uses_the_present_moment() {
    let codec = codec();
    let token = codec.issue(AccountId(9)).unwrap();
    let session = codec.validate(&token).unwrap();
    assert_eq!(session.account_id, AccountId(9));
}

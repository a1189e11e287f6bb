use eroteme::account::{Account, AccountId};
use eroteme::error::Error;
use eroteme::password::{hash_password, prepare_account, verify_password};

#[test]
fn a_hash_verifies_against_its_password() {
    let hash = hash_password(b"correct horse battery staple");
    assert_eq!(verify_password(&hash, b"correct horse battery staple"), Ok(true));
}

#[test]
fn a_hash_rejects_another_password() {
    let hash = hash_password(b"correct horse battery staple");
    assert_eq!(verify_password(&hash, b"incorrect horse"), Ok(false));
}

#[test]
fn two_hashes_of_one_password_differ_yet_both_verify() {
    let first = hash_password(b"pw");
    let second = hash_password(b"pw");
    assert_ne!(first, second);
    assert_eq!(verify_password(&first, b"pw"), Ok(true));
    assert_eq!(verify_password(&second, b"pw"), Ok(true));
}

#[test]
fn a_malformed_stored_hash_is_an_error_not_a_mismatch() {
    assert_eq!(
        verify_password("not an encoded hash", b"pw"),
        Err(Error::HashingFailure)
    );
}

#[test]
fn preparing_an_account_hashes_the_password() {
    let account = Account {
        id: Some(AccountId(7)),
        email: "a@b.com".to_string(),
        password: "pw".to_string(),
    };
    let prepared = prepare_account(account).unwrap();
    assert_eq!(prepared.id, Some(AccountId(7)));
    assert_eq!(prepared.email, "a@b.com");
    assert_ne!(prepared.password, "pw");
    assert_eq!(verify_password(&prepared.password, b"pw"), Ok(true));
}

use eroteme::error::{classify_database_error, APILayerError, Error};
use eroteme::num::IntParseError;

#[test]
fn authentication_failures_answer_401() {
    assert_eq!(Error::WrongPassword.status_code(), 401);
    assert_eq!(Error::CannotDecryptToken.status_code(), 401);
    assert_eq!(Error::Unauthorized.status_code(), 401);
}

#[test]
fn malformed_input_answers_422() {
    assert_eq!(Error::ParseError(IntParseError::InvalidDigit).status_code(), 422);
    assert_eq!(Error::MissingParameters.status_code(), 422);
    assert_eq!(Error::DuplicateAccount.status_code(), 422);
    assert_eq!(Error::DatabaseQueryError.status_code(), 422);
}

#[test]
fn internal_failures_answer_500_and_leak_nothing() {
    let upstream = APILayerError { status: 500, message: "secret upstream detail".to_string() };
    for e in [
        Error::HashingFailure,
        Error::TokenCreation,
        Error::ModerationTransport,
        Error::ModerationClient(upstream.clone()),
        Error::ModerationServer(upstream),
        Error::ModerationDecode,
    ] {
        assert_eq!(e.status_code(), 500);
        assert_eq!(e.reply_body(), "internal server error");
    }
}

#[test]
fn token_failures_reply_with_one_generic_denial() {
    assert_eq!(
        Error::CannotDecryptToken.reply_body(),
        "no permission to change the underlying resource"
    );
    assert_eq!(
        Error::Unauthorized.reply_body(),
        "no permission to change the underlying resource"
    );
    assert_eq!(Error::WrongPassword.reply_body(), "wrong email/password combination");
}

#[test]
fn messages_describe_each_kind() {
    assert_eq!(Error::MissingParameters.message(), "missing parameter");
    assert_eq!(
        Error::ParseError(IntParseError::InvalidDigit).message(),
        "cannot parse parameter: invalid digit found in string"
    );
    assert_eq!(
        Error::ModerationServer(APILayerError { status: 502, message: "gateway".to_string() })
            .message(),
        "external server error: status: 502, message: gateway"
    );
}

#[test]
fn a_unique_key_violation_is_a_duplicate_account() {
    let code = "23505".to_string();
    assert_eq!(classify_database_error(Some(&code)), Error::DuplicateAccount);
    let other = "42601".to_string();
    assert_eq!(classify_database_error(Some(&other)), Error::DatabaseQueryError);
    let garbage = "not a code".to_string();
    assert_eq!(classify_database_error(Some(&garbage)), Error::DatabaseQueryError);
    assert_eq!(classify_database_error(None), Error::DatabaseQueryError);
}

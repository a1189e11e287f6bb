//! The closed error taxonomy of the service, with one exhaustive
//! mapping from error kind to HTTP status code and outward reply text.
//! Internal detail (moderation failures, hashing failures) is never
//! echoed to the requester.

use crate::num::{parse_i32_spec, udec, u64_to_string, parse_i32, IntParseError};
use vstd::prelude::*;
use vstd::string::*;

verus! {

/// A structured error body returned by the moderation service.
#[derive(Debug, Clone, PartialEq, Eq)]
pub struct APILayerError {
    pub status: u16,
    pub message: String,
}

/// The text of an upstream error: its status, then its message.
pub open spec fn api_error_text(status: u16, message: Seq<char>) -> Seq<char> {
    "status: "@ + udec(status as nat) + ", message: "@ + message
}

impl APILayerError {
    /// Renders the upstream error for logs and messages.
    pub fn to_text(&self) -> (r: String)
        ensures
            r@ == api_error_text(self.status, self.message@),
    {
        let mut r = String::from_str("status: ");
        r.append(u64_to_string(self.status as u64).as_str());
        r.append(", message: ");
        r.append(self.message.as_str());
        r
    }
}

/// Every failure the service can answer a request with.
#[derive(Debug, Clone, PartialEq, Eq)]
pub enum Error {
    ParseError(IntParseError),
    MissingParameters,
    WrongPassword,
    CannotDecryptToken,
    Unauthorized,
    HashingFailure,
    TokenCreation,
    DuplicateAccount,
    DatabaseQueryError,
    ModerationTransport,
    ModerationClient(APILayerError),
    ModerationServer(APILayerError),
    ModerationDecode,
}

/// What integer parsing reports, in words.
pub open spec fn int_parse_error_text(k: IntParseError) -> Seq<char> {
    match k {
        IntParseError::Empty => "cannot parse integer from empty string"@,
        IntParseError::InvalidDigit => "invalid digit found in string"@,
        IntParseError::PosOverflow => "number too large to fit in target type"@,
        IntParseError::NegOverflow => "number too small to fit in target type"@,
    }
}

/// The descriptive text of each error kind.
pub open spec fn error_text(e: Error) -> Seq<char> {
    match e {
        Error::ParseError(k) => "cannot parse parameter: "@ + int_parse_error_text(k),
        Error::MissingParameters => "missing parameter"@,
        Error::WrongPassword => "wrong password"@,
        Error::CannotDecryptToken => "cannot decrypt token"@,
        Error::Unauthorized => "no permission to change the underlying resource"@,
        Error::HashingFailure => "cannot verify password"@,
        Error::TokenCreation => "cannot create session token"@,
        Error::DuplicateAccount => "account already exists"@,
        Error::DatabaseQueryError => "cannot update, invalid data"@,
        Error::ModerationTransport => "cannot reach the moderation service"@,
        Error::ModerationClient(a) => "external client error: "@ + api_error_text(
            a.status,
            a.message@,
        ),
        Error::ModerationServer(a) => "external server error: "@ + api_error_text(
            a.status,
            a.message@,
        ),
        Error::ModerationDecode => "cannot decode the moderation response"@,
    }
}

/// The HTTP status code each error kind is answered with: authentication
/// and authorization failures are 401, malformed client input is 422,
/// and everything whose detail must stay internal is a plain 500.
pub open spec fn status_of(e: Error) -> u16 {
    match e {
        Error::ParseError(_) => 422,
        Error::MissingParameters => 422,
        Error::WrongPassword => 401,
        Error::CannotDecryptToken => 401,
        Error::Unauthorized => 401,
        Error::HashingFailure => 500,
        Error::TokenCreation => 500,
        Error::DuplicateAccount => 422,
        Error::DatabaseQueryError => 422,
        Error::ModerationTransport => 500,
        Error::ModerationClient(_) => 500,
        Error::ModerationServer(_) => 500,
        Error::ModerationDecode => 500,
    }
}

/// The reply body sent for each error kind. Moderation and hashing
/// failures collapse to one generic line; token failures all collapse
/// to one generic denial, whatever their cause.
pub open spec fn reply_text(e: Error) -> Seq<char> {
    match e {
        Error::ParseError(k) => "cannot parse parameter: "@ + int_parse_error_text(k),
        Error::MissingParameters => "missing parameter"@,
        Error::WrongPassword => "wrong email/password combination"@,
        Error::CannotDecryptToken => "no permission to change the underlying resource"@,
        Error::Unauthorized => "no permission to change the underlying resource"@,
        Error::HashingFailure => "internal server error"@,
        Error::TokenCreation => "internal server error"@,
        Error::DuplicateAccount => "account already exists"@,
        Error::DatabaseQueryError => "Cannot update data"@,
        Error::ModerationTransport => "internal server error"@,
        Error::ModerationClient(_) => "internal server error"@,
        Error::ModerationServer(_) => "internal server error"@,
        Error::ModerationDecode => "internal server error"@,
    }
}

fn int_parse_error_str(k: IntParseError) -> (r: &'static str)
    ensures
        r@ == int_parse_error_text(k),
{
    match k {
        IntParseError::Empty => "cannot parse integer from empty string",
        IntParseError::InvalidDigit => "invalid digit found in string",
        IntParseError::PosOverflow => "number too large to fit in target type",
        IntParseError::NegOverflow => "number too small to fit in target type",
    }
}

impl Error {
    /// The descriptive text of this error.
    pub fn message(&self) -> (r: String)
        ensures
            r@ == error_text(*self),
    {
        match self {
            Error::ParseError(k) => {
                let mut r = String::from_str("cannot parse parameter: ");
                r.append(int_parse_error_str(*k));
                r
            },
            Error::MissingParameters => String::from_str("missing parameter"),
            Error::WrongPassword => String::from_str("wrong password"),
            Error::CannotDecryptToken => String::from_str("cannot decrypt token"),
            Error::Unauthorized => String::from_str(
                "no permission to change the underlying resource",
            ),
            Error::HashingFailure => String::from_str("cannot verify password"),
            Error::TokenCreation => String::from_str("cannot create session token"),
            Error::DuplicateAccount => String::from_str("account already exists"),
            Error::DatabaseQueryError => String::from_str("cannot update, invalid data"),
            Error::ModerationTransport => String::from_str("cannot reach the moderation service"),
            Error::ModerationClient(a) => {
                let mut r = String::from_str("external client error: ");
                r.append(a.to_text().as_str());
                r
            },
            Error::ModerationServer(a) => {
                let mut r = String::from_str("external server error: ");
                r.append(a.to_text().as_str());
                r
            },
            Error::ModerationDecode => String::from_str("cannot decode the moderation response"),
        }
    }

    /// The HTTP status code this error is answered with.
    pub fn status_code(&self) -> (r: u16)
        ensures
            r == status_of(*self),
    {
        match self {
            Error::ParseError(_) => 422,
            Error::MissingParameters => 422,
            Error::WrongPassword => 401,
            Error::CannotDecryptToken => 401,
            Error::Unauthorized => 401,
            Error::HashingFailure => 500,
            Error::TokenCreation => 500,
            Error::DuplicateAccount => 422,
            Error::DatabaseQueryError => 422,
            Error::ModerationTransport => 500,
            Error::ModerationClient(_) => 500,
            Error::ModerationServer(_) => 500,
            Error::ModerationDecode => 500,
        }
    }

    /// The reply body this error is answered with.
    pub fn reply_body(&self) -> (r: String)
        ensures
            r@ == reply_text(*self),
    {
        match self {
            Error::ParseError(k) => {
                let mut r = String::from_str("cannot parse parameter: ");
                r.append(int_parse_error_str(*k));
                r
            },
            Error::MissingParameters => String::from_str("missing parameter"),
            Error::WrongPassword => String::from_str("wrong email/password combination"),
            Error::CannotDecryptToken => String::from_str(
                "no permission to change the underlying resource",
            ),
            Error::Unauthorized => String::from_str(
                "no permission to change the underlying resource",
            ),
            Error::DuplicateAccount => String::from_str("account already exists"),
            Error::DatabaseQueryError => String::from_str("Cannot update data"),
            _ => String::from_str("internal server error"),
        }
    }
}

/// The code PostgreSQL reports for a unique-constraint violation.
pub const DUPLICATE_KEY: i32 = 23505;

/// Classifies a failed storage mutation by the database error code it
/// carried: a unique-key violation means the account already exists,
/// anything else is a plain query failure.
pub fn classify_database_error(code: Option<&String>) -> (r: Error)
    ensures
        r == (match code {
            Some(c) => if parse_i32_spec(c@) == Ok::<i32, IntParseError>(DUPLICATE_KEY) {
                Error::DuplicateAccount
            } else {
                Error::DatabaseQueryError
            },
            None => Error::DatabaseQueryError,
        }),
{
    match code {
        Some(c) => {
            match parse_i32(c.as_str()) {
                Ok(n) if n == DUPLICATE_KEY => Error::DuplicateAccount,
                _ => Error::DatabaseQueryError,
            }
        },
        None => Error::DatabaseQueryError,
    }
}

} // verus!

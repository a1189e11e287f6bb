//! Accounts and the sessions that prove a login.

use vstd::prelude::*;

verus! {

/// The storage-assigned identifier of an account.
#[derive(Clone, Copy, Debug, Hash, PartialEq, Eq, Structural)]
pub struct AccountId(pub i32);

/// An ephemeral identity, constructed only by a successful token
/// decode: the account it names and the window the token is valid in.
#[derive(Clone, Copy, Debug, PartialEq, Eq, Structural)]
pub struct Session {
    pub exp: i64,
    pub account_id: AccountId,
    pub nbf: i64,
}

/// A registered or registering account. After preparation for storage
/// the password field holds the encoded hash, never the raw submission.
#[derive(Clone, Debug, PartialEq, Eq)]
pub struct Account {
    pub id: Option<AccountId>,
    pub email: String,
    pub password: String,
}

} // verus!

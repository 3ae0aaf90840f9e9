//! Refresh tokens: long-lived, single-use tokens exchanged for new access tokens.

use vstd::prelude::*;
use vstd::string::*;
use crate::fault::Fault;
use crate::time::{later_than, now, Timestamp};

verus! {

/// A stored refresh token.
#[derive(Clone, Debug, PartialEq, Eq)]
pub struct RefreshToken {
    pub id: u128,
    pub user_id: u128,
    pub token: String,
    pub expires_at: Timestamp,
    pub is_used: bool,
    pub used_at: Option<Timestamp>,
    pub created_at: Timestamp,
    pub last_used_at: Timestamp,
}

impl RefreshToken {
    /// At `now` the token has expired: `now` is strictly after its expiry.
    pub open spec fn expired_at(&self, now: Timestamp) -> bool {
        later_than(now, self.expires_at)
    }

    /// At `now` the token may be exchanged: it has not expired and was never used.
    pub open spec fn valid_at(&self, now: Timestamp) -> bool {
        !self.expired_at(now) && !self.is_used
    }

    pub fn is_expired_at(&self, now: Timestamp) -> (res: bool)
        ensures
            res == self.expired_at(now),
    {
        now.is_later_than(&self.expires_at)
    }

    pub fn is_valid_at(&self, now: Timestamp) -> (res: bool)
        ensures
            res == self.valid_at(now),
    {
        !self.is_expired_at(now) && !self.is_used
    }

    /// Whether the token has expired at the moment the system clock is read.
    pub fn is_expired(&self) -> (res: bool)
        ensures
            exists|t: Timestamp| t.secs >= 0 && res == #[trigger] self.expired_at(t),
    {
        let t = now();
        self.is_expired_at(t)
    }

    /// Whether the token may be exchanged at the moment the system clock is read.
    pub fn is_valid(&self) -> (res: bool)
        ensures
            exists|t: Timestamp| t.secs >= 0 && res == #[trigger] self.valid_at(t),
    {
        let t = now();
        self.is_valid_at(t)
    }
}

/// Body of a refresh request.
#[derive(Clone, Debug, PartialEq, Eq)]
pub struct RefreshTokenRequest {
    pub refresh_token: String,
}

/// Body of a logout request.
#[derive(Clone, Debug, PartialEq, Eq)]
pub struct LogoutRequest {
    pub refresh_token: String,
}

/// Why a refresh failed.
#[derive(Clone, Debug, PartialEq, Eq)]
pub enum RefreshTokenError {
    /// The token is unknown, expired, or was already used.
    Unauthorized,
    Unknown(Fault),
}

} // verus!

verus! {

impl RefreshTokenError {
    /// The error's text.
    pub open spec fn message_spec(&self) -> Seq<char> {
        match self {
            RefreshTokenError::Unauthorized => "no such token"@,
            RefreshTokenError::Unknown(fault) => fault.message_spec(),
        }
    }

    pub fn message(&self) -> (text: String)
        ensures
            text@ == self.message_spec(),
    {
        match self {
            RefreshTokenError::Unauthorized => String::from_str("no such token"),
            RefreshTokenError::Unknown(fault) => fault.message(),
        }
    }
}

} // verus!

//! Password-reset tokens and the forgot / reset requests.

use vstd::prelude::*;
use vstd::string::*;
use crate::fault::Fault;
use crate::time::{later_than, now, Timestamp};
use crate::validation::{
    email_format_ok, has_at_least_chars, if_broken, is_valid_email, report, ValidationErrors,
    Violation,
};

verus! {

/// A stored password-reset token.
#[derive(Clone, Debug, PartialEq, Eq)]
pub struct PasswordResetToken {
    pub id: u128,
    pub user_id: u128,
    pub token: String,
    pub expires_at: Timestamp,
    pub created_at: Timestamp,
}

impl PasswordResetToken {
    /// At `now` the token has expired: `now` is strictly after its expiry.
    pub open spec fn expired_at(&self, now: Timestamp) -> bool {
        later_than(now, self.expires_at)
    }

    pub fn is_expired_at(&self, now: Timestamp) -> (res: bool)
        ensures
            res == self.expired_at(now),
    {
        now.is_later_than(&self.expires_at)
    }

    /// Whether the token has expired at the moment the system clock is read.
    pub fn is_expired(&self) -> (res: bool)
        ensures
            exists|t: Timestamp| t.secs >= 0 && res == #[trigger] self.expired_at(t),
    {
        let t = now();
        self.is_expired_at(t)
    }
}

/// Body of a forgot-password request.
#[derive(Clone, Debug, PartialEq, Eq)]
pub struct ForgotPasswordRequest {
    pub email: String,
}

impl ForgotPasswordRequest {
    /// The rule: an e-mail address.
    pub open spec fn violations(&self) -> Seq<Violation> {
        if_broken(!email_format_ok(self.email@), Violation::EmailFormat)
    }

    pub fn validate(&self) -> (res: Result<(), ValidationErrors>)
        ensures
            res is Ok <==> self.violations().len() == 0,
            res matches Err(e) ==> e.violations@ == self.violations(),
    {
        let mut found: Vec<Violation> = Vec::new();
        if !is_valid_email(self.email.as_str()) {
            found.push(Violation::EmailFormat);
        }
        assert(found@ =~= self.violations());
        report(found)
    }
}

/// Body of a reset-password request: the emailed token and the new password.
#[derive(Clone, Debug, PartialEq, Eq)]
pub struct ResetPasswordRequest {
    pub token: String,
    pub new_password: String,
}

impl ResetPasswordRequest {
    /// The rule: a new password of at least 8 characters.
    pub open spec fn violations(&self) -> Seq<Violation> {
        if_broken(self.new_password@.len() < 8, Violation::NewPasswordLength)
    }

    pub fn validate(&self) -> (res: Result<(), ValidationErrors>)
        ensures
            res is Ok <==> self.violations().len() == 0,
            res matches Err(e) ==> e.violations@ == self.violations(),
    {
        let mut found: Vec<Violation> = Vec::new();
        if !has_at_least_chars(self.new_password.as_str(), 8) {
            found.push(Violation::NewPasswordLength);
        }
        assert(found@ =~= self.violations());
        report(found)
    }
}

/// Why a forgot-password request failed.
#[derive(Clone, Debug, PartialEq, Eq)]
pub enum ForgotPasswordError {
    Unknown(Fault),
}

/// Why a password reset failed.
#[derive(Clone, Debug, PartialEq, Eq)]
pub enum ResetPasswordError {
    TokenIsExpired,
    TokenNotFound,
    Unknown(Fault),
}

} // verus!

verus! {

impl ResetPasswordError {
    /// The error's text.
    pub open spec fn message_spec(&self) -> Seq<char> {
        match self {
            ResetPasswordError::TokenIsExpired => "Token is expired"@,
            ResetPasswordError::TokenNotFound => "Cannot find token"@,
            ResetPasswordError::Unknown(fault) => fault.message_spec(),
        }
    }

    pub fn message(&self) -> (text: String)
        ensures
            text@ == self.message_spec(),
    {
        match self {
            ResetPasswordError::TokenIsExpired => String::from_str("Token is expired"),
            ResetPasswordError::TokenNotFound => String::from_str("Cannot find token"),
            ResetPasswordError::Unknown(fault) => fault.message(),
        }
    }
}

} // verus!

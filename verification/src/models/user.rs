//! Users, the registration / login / profile requests, and their errors.

use vstd::prelude::*;
use vstd::string::*;
use crate::fault::Fault;
use crate::time::Timestamp;
use crate::validation::{
    char_count_between, email_format_ok, has_at_least_chars, has_char_count_between,
    has_at_most_chars, if_broken, is_valid_email, is_valid_url, report, url_format_ok,
    ValidationErrors, Violation,
};

verus! {

/// A stored user account.
#[derive(Clone, Debug, PartialEq, Eq)]
pub struct User {
    pub id: u128,
    pub username: String,
    pub email: String,
    pub password_hash: String,
    pub bio: Option<String>,
    pub image: Option<String>,
    pub email_verified: bool,
    pub created_at: Timestamp,
    pub updated_at: Timestamp,
}

/// Body of a registration request.
#[derive(Clone, Debug, PartialEq, Eq)]
pub struct RegisterUserRequest {
    pub user: RegisterUserData,
}

/// The new account's username, e-mail address and password.
#[derive(Clone, Debug, PartialEq, Eq)]
pub struct RegisterUserData {
    pub username: String,
    pub email: String,
    pub password: String,
}

/// The rules of a new account: a username of 3 to 50 characters, an e-mail
/// address, a password of at least 8 characters.
pub open spec fn account_violations(username: Seq<char>, email: Seq<char>, password: Seq<char>) -> Seq<Violation> {
    if_broken(!char_count_between(username, 3, 50), Violation::UsernameLength)
        + if_broken(!email_format_ok(email), Violation::EmailFormat)
        + if_broken(password.len() < 8, Violation::PasswordLength)
}

/// Checks the rules of a new account, in field order.
pub fn check_account(username: &str, email: &str, password: &str) -> (res: Vec<Violation>)
    ensures
        res@ == account_violations(username@, email@, password@),
{
    let mut found: Vec<Violation> = Vec::new();
    if !has_char_count_between(username, 3, 50) {
        found.push(Violation::UsernameLength);
    }
    if !is_valid_email(email) {
        found.push(Violation::EmailFormat);
    }
    if !has_at_least_chars(password, 8) {
        found.push(Violation::PasswordLength);
    }
    assert(found@ =~= account_violations(username@, email@, password@));
    found
}

impl RegisterUserData {
    pub open spec fn violations(&self) -> Seq<Violation> {
        account_violations(self.username@, self.email@, self.password@)
    }

    /// `Ok` when every rule holds, else the broken rules in field order.
    pub fn validate(&self) -> (res: Result<(), ValidationErrors>)
        ensures
            res is Ok <==> self.violations().len() == 0,
            res matches Err(e) ==> e.violations@ == self.violations(),
    {
        report(check_account(self.username.as_str(), self.email.as_str(), self.password.as_str()))
    }
}

/// Why a registration failed.
#[derive(Clone, Debug, PartialEq, Eq)]
pub enum RegisterUserError {
    DuplicateEmail { email: String },
    DuplicateUsername { username: String },
    Unknown(Fault),
}

/// Body of a login request.
#[derive(Clone, Debug, PartialEq, Eq)]
pub struct LoginUserRequest {
    pub user: LoginUserData,
}

/// The e-mail address and password presented at login.
#[derive(Clone, Debug, PartialEq, Eq)]
pub struct LoginUserData {
    pub email: String,
    pub password: String,
}

impl LoginUserData {
    /// The rules of a login: an e-mail address and a non-empty password.
    pub open spec fn violations(&self) -> Seq<Violation> {
        if_broken(!email_format_ok(self.email@), Violation::EmailFormat)
            + if_broken(self.password@.len() < 1, Violation::PasswordRequired)
    }

    /// `Ok` when every rule holds, else the broken rules in field order.
    pub fn validate(&self) -> (res: Result<(), ValidationErrors>)
        ensures
            res is Ok <==> self.violations().len() == 0,
            res matches Err(e) ==> e.violations@ == self.violations(),
    {
        let mut found: Vec<Violation> = Vec::new();
        if !is_valid_email(self.email.as_str()) {
            found.push(Violation::EmailFormat);
        }
        if !has_at_least_chars(self.password.as_str(), 1) {
            found.push(Violation::PasswordRequired);
        }
        assert(found@ =~= self.violations());
        report(found)
    }
}

/// Why a login failed.
#[derive(Clone, Debug, PartialEq, Eq)]
pub enum LoginError {
    /// No user has that e-mail address, the password is wrong, or the access
    /// token is not accepted.
    Unauthorized,
    Unknown(Fault),
}

/// Why looking a user up failed.
#[derive(Clone, Debug, PartialEq, Eq)]
pub enum FindUserError {
    Unknown(Fault),
}

/// Why a logout failed.
#[derive(Clone, Debug, PartialEq, Eq)]
pub enum LogoutError {
    Unknown(Fault),
}

/// An e-mail verification request: the token from the verification link.
#[derive(Debug)]
pub struct VerifyEmailRequest<'a> {
    pub token: &'a String,
}

/// Why an e-mail verification failed.
#[derive(Clone, Debug, PartialEq, Eq)]
pub enum VerifyEmailError {
    IsExpired,
    NotFound,
    Unknown(Fault),
}

/// A request to create a user with the given username, e-mail address and password.
#[derive(Clone, Debug, PartialEq, Eq)]
pub struct CreateUserRequest {
    pub username: String,
    pub email: String,
    pub password: String,
}

impl CreateUserRequest {
    /// Same rules as a registration.
    pub open spec fn violations(&self) -> Seq<Violation> {
        account_violations(self.username@, self.email@, self.password@)
    }

    /// `Ok` when every rule holds, else the broken rules in field order.
    pub fn validate(&self) -> (res: Result<(), ValidationErrors>)
        ensures
            res is Ok <==> self.violations().len() == 0,
            res matches Err(e) ==> e.violations@ == self.violations(),
    {
        report(check_account(self.username.as_str(), self.email.as_str(), self.password.as_str()))
    }
}

/// A profile update: each field that is present replaces the stored one.
#[derive(Clone, Debug, PartialEq, Eq)]
pub struct UpdateUserRequest {
    pub username: Option<String>,
    pub email: Option<String>,
    pub bio: Option<String>,
    pub image: Option<String>,
}

impl UpdateUserRequest {
    /// The rules apply to the fields that are present: a username of 3 to 50
    /// characters, an e-mail address, a bio of at most 500 characters, an
    /// image URL.
    pub open spec fn violations(&self) -> Seq<Violation> {
        if_broken(
            self.username matches Some(u) && !char_count_between(u@, 3, 50),
            Violation::UsernameLength,
        ) + if_broken(self.email matches Some(e) && !email_format_ok(e@), Violation::EmailFormat)
            + if_broken(self.bio matches Some(b) && b@.len() > 500, Violation::BioLength)
            + if_broken(self.image matches Some(i) && !url_format_ok(i@), Violation::ImageUrl)
    }

    /// `Ok` when every present field keeps its rule, else the broken rules in field order.
    pub fn validate(&self) -> (res: Result<(), ValidationErrors>)
        ensures
            res is Ok <==> self.violations().len() == 0,
            res matches Err(e) ==> e.violations@ == self.violations(),
    {
        let mut found: Vec<Violation> = Vec::new();
        if let Some(u) = &self.username {
            if !has_char_count_between(u.as_str(), 3, 50) {
                found.push(Violation::UsernameLength);
            }
        }
        if let Some(e) = &self.email {
            if !is_valid_email(e.as_str()) {
                found.push(Violation::EmailFormat);
            }
        }
        if let Some(b) = &self.bio {
            if !has_at_most_chars(b.as_str(), 500) {
                found.push(Violation::BioLength);
            }
        }
        if let Some(i) = &self.image {
            if !is_valid_url(i.as_str()) {
                found.push(Violation::ImageUrl);
            }
        }
        assert(found@ =~= self.violations());
        report(found)
    }
}

} // verus!

verus! {

impl RegisterUserError {
    /// The error's text.
    pub open spec fn message_spec(&self) -> Seq<char> {
        match self {
            RegisterUserError::DuplicateEmail { email } => "user with email '"@ + email@
                + "' already exists"@,
            RegisterUserError::DuplicateUsername { username } => "user with username '"@
                + username@ + "' already exists"@,
            RegisterUserError::Unknown(fault) => fault.message_spec(),
        }
    }

    pub fn message(&self) -> (text: String)
        ensures
            text@ == self.message_spec(),
    {
        match self {
            RegisterUserError::DuplicateEmail { email } => {
                let mut text = String::from_str("user with email '");
                text.append(email.as_str());
                text.append("' already exists");
                text
            },
            RegisterUserError::DuplicateUsername { username } => {
                let mut text = String::from_str("user with username '");
                text.append(username.as_str());
                text.append("' already exists");
                text
            },
            RegisterUserError::Unknown(fault) => fault.message(),
        }
    }
}

impl LoginError {
    /// The error's text.
    pub open spec fn message_spec(&self) -> Seq<char> {
        match self {
            LoginError::Unauthorized => "that combination of user and password doesn't exist"@,
            LoginError::Unknown(fault) => fault.message_spec(),
        }
    }

    pub fn message(&self) -> (text: String)
        ensures
            text@ == self.message_spec(),
    {
        match self {
            LoginError::Unauthorized => String::from_str(
                "that combination of user and password doesn't exist",
            ),
            LoginError::Unknown(fault) => fault.message(),
        }
    }
}

impl VerifyEmailError {
    /// The error's text.
    pub open spec fn message_spec(&self) -> Seq<char> {
        match self {
            VerifyEmailError::IsExpired => "email verification token is expired"@,
            VerifyEmailError::NotFound => "email verification token is not found"@,
            VerifyEmailError::Unknown(fault) => fault.message_spec(),
        }
    }

    pub fn message(&self) -> (text: String)
        ensures
            text@ == self.message_spec(),
    {
        match self {
            VerifyEmailError::IsExpired => String::from_str("email verification token is expired"),
            VerifyEmailError::NotFound => String::from_str("email verification token is not found"),
            VerifyEmailError::Unknown(fault) => fault.message(),
        }
    }
}

} // verus!

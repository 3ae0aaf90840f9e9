//! The operations of the authentication service, each a state machine.
//!
//! An operation never touches the database, the mailer, the clock or the
//! signing key itself. It starts in a state and names a piece of outside
//! work (`Action`); whoever runs it performs that work and hands the answer
//! back (`Reply`); the operation then decides and either names the next piece
//! of work or finishes with its outcome.

use vstd::prelude::*;
use crate::fault::Fault;
use crate::models::email_verification_token::EmailVerificationToken;
use crate::models::password_reset_tokens::PasswordResetToken;
use crate::models::refresh_token::RefreshToken;
use crate::models::user::User;
use crate::time::Timestamp;

pub mod account;
pub mod email_verification;
pub mod login;
pub mod password;
pub mod refresh;
pub mod registration;
pub mod session;

verus! {

/// Outside work that an operation asks for.
#[derive(Clone, Debug, PartialEq, Eq)]
pub enum Action {
    /// Look up the user with this e-mail address; answered by `Reply::User`.
    FindUserByEmail { email: String },
    /// Look up the user with this username; answered by `Reply::User`.
    FindUserByUsername { username: String },
    /// Look up the user with this id; answered by `Reply::User`.
    FindUserById { user_id: u128 },
    /// Store a new user; answered by `Reply::CreatedUser`.
    CreateUser { username: String, email: String, password_hash: String },
    /// Replace a user's password hash; answered by `Reply::Done`.
    UpdatePassword { user_id: u128, password_hash: String },
    /// Hash a password; answered by `Reply::Text` with the hash.
    HashPassword { password: String },
    /// Check a password against a hash; answered by `Reply::PasswordMatches`.
    VerifyPassword { password: String, password_hash: String },
    /// Draw a fresh random e-mail or password-reset token; answered by `Reply::Text`.
    GenerateVerificationToken,
    /// Draw a fresh random refresh token; answered by `Reply::Text`.
    GenerateRefreshToken,
    /// Read the system clock; answered by `Reply::Clock`.
    ReadClock,
    /// Read the signing secret from the configuration; answered by `Reply::Text`.
    ReadJwtSecret,
    /// Sign an access token for the user; answered by `Reply::Text`.
    IssueAccessToken { user_id: u128, secret: String },
    /// Check an access token's signature and expiry; answered by `Reply::Subject`.
    ValidateAccessToken { token: String, secret: String },
    /// Store an e-mail verification token; answered by `Reply::Done`.
    SaveEmailVerificationToken { user_id: u128, token: String, expires_at: Timestamp },
    /// Look up an e-mail verification token; answered by `Reply::EmailToken`.
    FindEmailVerificationToken { token: String },
    /// Delete an e-mail verification token; answered by `Reply::Done`.
    DeleteEmailVerificationToken { token: String },
    /// Mark the user's e-mail address as verified; answered by `Reply::Done`.
    MarkEmailVerified { user_id: u128 },
    /// Mail the verification token to the user; answered by `Reply::Done`.
    SendVerificationEmail { to_email: String, username: String, token: String },
    /// Store a refresh token for the user; answered by `Reply::Done`.
    SaveRefreshToken { user_id: u128, token: String },
    /// Look up a refresh token; answered by `Reply::RefreshTokenRecord`.
    FindRefreshToken { token: String },
    /// Record that a refresh token was exchanged; answered by `Reply::Done`.
    MarkRefreshTokenUsed { token: String },
    /// Delete one refresh token; answered by `Reply::Done`.
    DeleteRefreshToken { token: String },
    /// Delete every refresh token of the user; answered by `Reply::Done`.
    DeleteAllRefreshTokens { user_id: u128 },
    /// Warn the user that a used refresh token was presented again; answered by `Reply::Done`.
    SendSecurityAlert { to_email: String, username: String },
    /// Store a password-reset token; answered by `Reply::Done`.
    SavePasswordResetToken { user_id: u128, token: String, expires_at: Timestamp },
    /// Look up a password-reset token; answered by `Reply::ResetToken`.
    FindPasswordResetToken { token: String },
    /// Delete one password-reset token; answered by `Reply::Done`.
    DeletePasswordResetToken { token: String },
    /// Delete every password-reset token of the user; answered by `Reply::Done`.
    DeleteAllPasswordResetTokens { user_id: u128 },
    /// Mail the password-reset token to the user; answered by `Reply::Done`.
    SendPasswordResetEmail { to_email: String, username: String, token: String },
}

/// The answer to a piece of outside work.
#[derive(Clone, Debug, PartialEq, Eq)]
pub enum Reply {
    /// The work failed with this message.
    Failed(String),
    /// The work succeeded and gives nothing the operation needs.
    Done,
    /// The work produced this text (a hash, a token, a secret).
    Text(String),
    /// The clock reads this instant.
    Clock(Timestamp),
    /// Whether the password matched the hash.
    PasswordMatches(bool),
    /// The access token is valid and names this subject.
    Subject(String),
    /// The user that a lookup found, if any.
    User(Option<User>),
    /// The user that was stored.
    CreatedUser(User),
    /// The e-mail verification token that a lookup found, if any.
    EmailToken(Option<EmailVerificationToken>),
    /// The refresh token that a lookup found, if any.
    RefreshTokenRecord(Option<RefreshToken>),
    /// The password-reset token that a lookup found, if any.
    ResetToken(Option<PasswordResetToken>),
}

/// What an operation does with a reply.
#[derive(Clone, Debug, PartialEq, Eq)]
pub enum Step<S, O> {
    /// Go on in the new state, which waits for the answer to this work.
    Continue(S, Action),
    /// Stop with this outcome.
    Finish(O),
}

/// The fault that a reply other than the expected one stands for: the
/// message of a failure, or an unexpected reply.
pub open spec fn fault_of(reply: Reply) -> Fault {
    match reply {
        Reply::Failed(message) => Fault::Outside(message),
        _ => Fault::UnexpectedReply,
    }
}

pub fn fault_from(reply: Reply) -> (f: Fault)
    ensures
        f == fault_of(reply),
{
    match reply {
        Reply::Failed(message) => Fault::Outside(message),
        _ => Fault::UnexpectedReply,
    }
}

} // verus!

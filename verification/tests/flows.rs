use axum_backend_series::fault::Fault;
use axum_backend_series::models::email_verification_token::EmailVerificationToken;
use axum_backend_series::models::password_reset_tokens::{
    ForgotPasswordError, ForgotPasswordRequest, PasswordResetToken, ResetPasswordError,
    ResetPasswordRequest,
};
use axum_backend_series::models::refresh_token::{RefreshToken, RefreshTokenError, RefreshTokenRequest};
use axum_backend_series::models::user::{
    FindUserError, LoginError, LoginUserData, LoginUserRequest, LogoutError, RegisterUserData,
    RegisterUserError, RegisterUserRequest, User, VerifyEmailError, VerifyEmailRequest,
};
use axum_backend_series::service::account::{AccessTokenIssue, Logout, TokenAuthentication, UserLookup};
use axum_backend_series::service::email_verification::EmailVerification;
use axum_backend_series::service::login::Login;
use axum_backend_series::service::password::{ForgotPassword, PasswordReset};
use axum_backend_series::service::refresh::TokenRefresh;
use axum_backend_series::service::registration::Registration;
use axum_backend_series::service::{Action, Reply, Step};
use axum_backend_series::time::Timestamp;

const NOW: Timestamp = Timestamp { secs: 1_700_000_000, nanos: 0 };

fn user(id: u128) -> User {
    User {
        id,
        username: "alice".to_string(),
        email: "alice@example.com".to_string(),
        password_hash: "$hash$".to_string(),
        bio: None,
        image: None,
        email_verified: false,
        created_at: NOW,
        updated_at: NOW,
    }
}

fn text(s: &str) -> Reply {
    Reply::Text(s.to_string())
}

trait Machine: Sized {
    type Out;
    fn advance(self, reply: Reply) -> Step<Self, Self::Out>;
}

impl Machine for Registration {
    type Out = Result<(User, String, String), RegisterUserError>;
    fn advance(self, reply: Reply) -> Step<Self, Self::Out> {
        self.step(reply)
    }
}

impl Machine for Login {
    type Out = Result<(User, String, String), LoginError>;
    fn advance(self, reply: Reply) -> Step<Self, Self::Out> {
        self.step(reply)
    }
}

impl Machine for Logout {
    type Out = Result<(), LogoutError>;
    fn advance(self, reply: Reply) -> Step<Self, Self::Out> {
        self.step(reply)
    }
}

impl Machine for UserLookup {
    type Out = Result<Option<User>, FindUserError>;
    fn advance(self, reply: Reply) -> Step<Self, Self::Out> {
        self.step(reply)
    }
}

impl Machine for AccessTokenIssue {
    type Out = Result<String, FindUserError>;
    fn advance(self, reply: Reply) -> Step<Self, Self::Out> {
        self.step(reply)
    }
}

impl Machine for TokenAuthentication {
    type Out = Result<Option<User>, LoginError>;
    fn advance(self, reply: Reply) -> Step<Self, Self::Out> {
        self.step(reply)
    }
}

impl Machine for EmailVerification {
    type Out = Result<(), VerifyEmailError>;
    fn advance(self, reply: Reply) -> Step<Self, Self::Out> {
        self.step(reply)
    }
}

impl Machine for TokenRefresh {
    type Out = Result<(String, String), RefreshTokenError>;
    fn advance(self, reply: Reply) -> Step<Self, Self::Out> {
        self.step(reply)
    }
}

impl Machine for ForgotPassword {
    type Out = Result<(), ForgotPasswordError>;
    fn advance(self, reply: Reply) -> Step<Self, Self::Out> {
        self.step(reply)
    }
}

impl Machine for PasswordReset {
    type Out = Result<(), ResetPasswordError>;
    fn advance(self, reply: Reply) -> Step<Self, Self::Out> {
        self.step(reply)
    }
}


fn drive<M: Machine>(start: (M, Action), replies: Vec<Reply>) -> (Option<M::Out>, Vec<Action>) {
    let (mut state, first) = start;
    let mut work = vec![first];
    for reply in replies {
        match state.advance(reply) {
            Step::Continue(next, action) => {
                work.push(action);
                state = next;
            }
            Step::Finish(outcome) => return (Some(outcome), work),
        }
    }
    (None, work)
}

fn register_request() -> RegisterUserRequest {
    RegisterUserRequest {
        user: RegisterUserData {
            username: "alice".to_string(),
            email: "alice@example.com".to_string(),
            password: "secret password".to_string(),
        },
    }
}

#[test]
fn registration_runs_all_steps_in_order() {
    let replies = vec![
        Reply::User(None),
        Reply::User(None),
        text("$hash$"),
        Reply::CreatedUser(user(7)),
        text("verify-token"),
        Reply::Clock(NOW),
        Reply::Done,
        Reply::Done,
        text("jwt-secret"),
        text("access"),
        text("refresh"),
        Reply::Done,
    ];
    let (outcome, work) = drive(Registration::start(register_request()), replies);
    assert_eq!(outcome, Some(Ok((user(7), "access".to_string(), "refresh".to_string()))));
    assert_eq!(
        work,
        vec![
            Action::FindUserByEmail { email: "alice@example.com".to_string() },
            Action::FindUserByUsername { username: "alice".to_string() },
            Action::HashPassword { password: "secret password".to_string() },
            Action::CreateUser {
                username: "alice".to_string(),
                email: "alice@example.com".to_string(),
                password_hash: "$hash$".to_string(),
            },
            Action::GenerateVerificationToken,
            Action::ReadClock,
            Action::SaveEmailVerificationToken {
                user_id: 7,
                token: "verify-token".to_string(),
                expires_at: Timestamp { secs: 1_700_000_000 + 24 * 3600, nanos: 0 },
            },
            Action::SendVerificationEmail {
                to_email: "alice@example.com".to_string(),
                username: "alice".to_string(),
                token: "verify-token".to_string(),
            },
            Action::ReadJwtSecret,
            Action::IssueAccessToken { user_id: 7, secret: "jwt-secret".to_string() },
            Action::GenerateRefreshToken,
            Action::SaveRefreshToken { user_id: 7, token: "refresh".to_string() },
        ]
    );
}

#[test]
fn registration_refuses_taken_email_and_username() {
    let (outcome, work) = drive(Registration::start(register_request()), vec![Reply::User(Some(user(1)))]);
    assert_eq!(
        outcome,
        Some(Err(RegisterUserError::DuplicateEmail { email: "alice@example.com".to_string() }))
    );
    assert_eq!(work.len(), 1);
    let (outcome, _) = drive(
        Registration::start(register_request()),
        vec![Reply::User(None), Reply::User(Some(user(1)))]
    );
    assert_eq!(
        outcome,
        Some(Err(RegisterUserError::DuplicateUsername { username: "alice".to_string() }))
    );
}

#[test]
fn registration_fails_on_outside_failure_and_odd_replies() {
    let (outcome, _) = drive(
        Registration::start(register_request()),
        vec![Reply::Failed("db down".to_string())]
    );
    assert_eq!(outcome, Some(Err(RegisterUserError::Unknown(Fault::Outside("db down".to_string())))));
    let (outcome, _) = drive(Registration::start(register_request()), vec![Reply::Done]);
    assert_eq!(outcome, Some(Err(RegisterUserError::Unknown(Fault::UnexpectedReply))));
    let (outcome, _) = drive(
        Registration::start(register_request()),
        vec![
            Reply::User(None),
            Reply::User(None),
            text("$hash$"),
            Reply::CreatedUser(user(7)),
            text("verify-token"),
            Reply::Clock(Timestamp { secs: 8_210_266_876_799 - 5, nanos: 0 }),
        ]
    );
    assert_eq!(outcome, Some(Err(RegisterUserError::Unknown(Fault::ExpiryOutOfRange))));
    let (outcome, _) = drive(
        Registration::start(register_request()),
        vec![
            Reply::User(None),
            Reply::User(None),
            text("$hash$"),
            Reply::CreatedUser(user(7)),
            text("verify-token"),
            Reply::Clock(NOW),
            Reply::Done,
            Reply::Failed("smtp refused".to_string()),
        ]
    );
    assert_eq!(
        outcome,
        Some(Err(RegisterUserError::Unknown(Fault::Outside("smtp refused".to_string()))))
    );
}

fn login_request() -> LoginUserRequest {
    LoginUserRequest {
        user: LoginUserData {
            email: "alice@example.com".to_string(),
            password: "secret password".to_string(),
        },
    }
}

#[test]
fn login_opens_a_session_after_the_password_matches() {
    let replies = vec![
        Reply::User(Some(user(3))),
        Reply::PasswordMatches(true),
        text("jwt-secret"),
        text("access"),
        text("refresh"),
        Reply::Done,
    ];
    let (outcome, work) = drive(Login::start(login_request()), replies);
    assert_eq!(outcome, Some(Ok((user(3), "access".to_string(), "refresh".to_string()))));
    assert_eq!(
        work[1],
        Action::VerifyPassword {
            password: "secret password".to_string(),
            password_hash: "$hash$".to_string(),
        }
    );
    assert_eq!(work[5], Action::SaveRefreshToken { user_id: 3, token: "refresh".to_string() });
}

#[test]
fn login_refuses_unknown_address_and_wrong_password_alike() {
    let (outcome, _) = drive(Login::start(login_request()), vec![Reply::User(None)]);
    assert_eq!(outcome, Some(Err(LoginError::Unauthorized)));
    let (outcome, work) = drive(
        Login::start(login_request()),
        vec![Reply::User(Some(user(3))), Reply::PasswordMatches(false)]
    );
    assert_eq!(outcome, Some(Err(LoginError::Unauthorized)));
    assert_eq!(work.len(), 2);
    let (outcome, _) = drive(
        Login::start(login_request()),
        vec![Reply::User(Some(user(3))), Reply::PasswordMatches(true), Reply::Failed("JWT_SECRET unset".to_string())]
    );
    assert_eq!(outcome, Some(Err(LoginError::Unknown(Fault::Outside("JWT_SECRET unset".to_string())))));
}

#[test]
fn logout_deletes_the_token() {
    let (outcome, work) = drive(Logout::start("r1".to_string()), vec![Reply::Done]);
    assert_eq!(outcome, Some(Ok(())));
    assert_eq!(work, vec![Action::DeleteRefreshToken { token: "r1".to_string() }]);
    let (outcome, _) = drive(Logout::start("r1".to_string()), vec![Reply::Failed("x".to_string())]);
    assert_eq!(outcome, Some(Err(LogoutError::Unknown(Fault::Outside("x".to_string())))));
}

#[test]
fn user_lookup_passes_the_result_through() {
    let (outcome, work) = drive(UserLookup::start(9), vec![Reply::User(Some(user(9)))]);
    assert_eq!(outcome, Some(Ok(Some(user(9)))));
    assert_eq!(work, vec![Action::FindUserById { user_id: 9 }]);
    let (outcome, _) = drive(UserLookup::start(9), vec![Reply::User(None)]);
    assert_eq!(outcome, Some(Ok(None)));
    let (outcome, _) = drive(UserLookup::start(9), vec![Reply::Failed("x".to_string())]);
    assert_eq!(outcome, Some(Err(FindUserError::Unknown(Fault::Outside("x".to_string())))));
}

#[test]
fn access_token_issue_signs_for_the_user() {
    let (outcome, work) = drive(AccessTokenIssue::start(4), vec![text("s"), text("jwt")]);
    assert_eq!(outcome, Some(Ok("jwt".to_string())));
    assert_eq!(work[1], Action::IssueAccessToken { user_id: 4, secret: "s".to_string() });
}

#[test]
fn token_authentication_reads_the_subject_as_a_user_id() {
    let subject = "67e55044-10b1-426f-9247-bb680e5fe0c8".to_string();
    let (outcome, work) = drive(
        TokenAuthentication::start("jwt".to_string()),
        vec![text("s"), Reply::Subject(subject), Reply::User(Some(user(5)))]
    );
    assert_eq!(outcome, Some(Ok(Some(user(5)))));
    assert_eq!(
        work,
        vec![
            Action::ReadJwtSecret,
            Action::ValidateAccessToken { token: "jwt".to_string(), secret: "s".to_string() },
            Action::FindUserById { user_id: 0x67e5_5044_10b1_426f_9247_bb68_0e5f_e0c8 },
        ]
    );
}

#[test]
fn token_authentication_refuses_bad_tokens_and_subjects() {
    let (outcome, _) = drive(
        TokenAuthentication::start("jwt".to_string()),
        vec![text("s"), Reply::Failed("bad signature".to_string())]
    );
    assert_eq!(outcome, Some(Err(LoginError::Unauthorized)));
    let (outcome, _) = drive(
        TokenAuthentication::start("jwt".to_string()),
        vec![text("s"), Reply::Subject("not-a-uuid".to_string())]
    );
    assert_eq!(outcome, Some(Err(LoginError::Unauthorized)));
    let (outcome, _) = drive(
        TokenAuthentication::start("jwt".to_string()),
        vec![Reply::Failed("JWT_SECRET unset".to_string())]
    );
    assert_eq!(outcome, Some(Err(LoginError::Unknown(Fault::Outside("JWT_SECRET unset".to_string())))));
}

fn verification_record(expires_at: Timestamp) -> EmailVerificationToken {
    EmailVerificationToken { id: 1, user_id: 8, token: "v".to_string(), expires_at, created_at: NOW }
}

#[test]
fn email_verification_marks_then_deletes() {
    let token = "v".to_string();
    let req = VerifyEmailRequest { token: &token };
    let later = Timestamp { secs: NOW.secs + 10, nanos: 0 };
    let (outcome, work) = drive(
        EmailVerification::start(&req),
        vec![Reply::EmailToken(Some(verification_record(later))), Reply::Clock(NOW), Reply::Done, Reply::Done]
    );
    assert_eq!(outcome, Some(Ok(())));
    assert_eq!(
        work,
        vec![
            Action::FindEmailVerificationToken { token: "v".to_string() },
            Action::ReadClock,
            Action::MarkEmailVerified { user_id: 8 },
            Action::DeleteEmailVerificationToken { token: "v".to_string() },
        ]
    );
}

#[test]
fn email_verification_refuses_expired_and_unknown_tokens() {
    let token = "v".to_string();
    let req = VerifyEmailRequest { token: &token };
    let earlier = Timestamp { secs: NOW.secs - 1, nanos: 0 };
    let (outcome, work) = drive(
        EmailVerification::start(&req),
        vec![Reply::EmailToken(Some(verification_record(earlier))), Reply::Clock(NOW), Reply::Done]
    );
    assert_eq!(outcome, Some(Err(VerifyEmailError::IsExpired)));
    assert_eq!(work[2], Action::DeleteEmailVerificationToken { token: "v".to_string() });
    let (outcome, _) = drive(EmailVerification::start(&req), vec![Reply::EmailToken(None)]);
    assert_eq!(outcome, Some(Err(VerifyEmailError::NotFound)));
}

fn refresh_record(expires_at: Timestamp, is_used: bool) -> RefreshToken {
    RefreshToken {
        id: 1,
        user_id: 6,
        token: "old".to_string(),
        expires_at,
        is_used,
        used_at: None,
        created_at: NOW,
        last_used_at: NOW,
    }
}

fn refresh_request() -> RefreshTokenRequest {
    RefreshTokenRequest { refresh_token: "old".to_string() }
}

#[test]
fn refresh_rotates_a_valid_token() {
    let later = Timestamp { secs: NOW.secs + 100, nanos: 0 };
    let (outcome, work) = drive(
        TokenRefresh::start(refresh_request()),
        vec![
            Reply::RefreshTokenRecord(Some(refresh_record(later, false))),
            Reply::Clock(NOW),
            Reply::Done,
            text("new"),
            Reply::Done,
            text("s"),
            text("access"),
        ]
    );
    assert_eq!(outcome, Some(Ok(("access".to_string(), "new".to_string()))));
    assert_eq!(
        work,
        vec![
            Action::FindRefreshToken { token: "old".to_string() },
            Action::ReadClock,
            Action::MarkRefreshTokenUsed { token: "old".to_string() },
            Action::GenerateRefreshToken,
            Action::SaveRefreshToken { user_id: 6, token: "new".to_string() },
            Action::ReadJwtSecret,
            Action::IssueAccessToken { user_id: 6, secret: "s".to_string() },
        ]
    );
}

#[test]
fn refresh_with_a_reused_token_revokes_and_alerts() {
    let later = Timestamp { secs: NOW.secs + 100, nanos: 0 };
    let (outcome, work) = drive(
        TokenRefresh::start(refresh_request()),
        vec![
            Reply::RefreshTokenRecord(Some(refresh_record(later, true))),
            Reply::Clock(NOW),
            Reply::Done,
            Reply::User(Some(user(6))),
            Reply::Failed("smtp down".to_string()),
        ]
    );
    assert_eq!(outcome, Some(Err(RefreshTokenError::Unauthorized)));
    assert_eq!(
        work[2..],
        [
            Action::DeleteAllRefreshTokens { user_id: 6 },
            Action::FindUserById { user_id: 6 },
            Action::SendSecurityAlert {
                to_email: "alice@example.com".to_string(),
                username: "alice".to_string(),
            },
        ]
    );
}

#[test]
fn refresh_with_a_reused_token_of_a_vanished_user_fails() {
    let later = Timestamp { secs: NOW.secs + 100, nanos: 0 };
    let (outcome, _) = drive(
        TokenRefresh::start(refresh_request()),
        vec![
            Reply::RefreshTokenRecord(Some(refresh_record(later, true))),
            Reply::Clock(NOW),
            Reply::Done,
            Reply::User(None),
        ]
    );
    assert_eq!(outcome, Some(Err(RefreshTokenError::Unknown(Fault::MissingUser(6)))));
}

#[test]
fn refresh_with_an_expired_token_deletes_it() {
    let earlier = Timestamp { secs: NOW.secs - 100, nanos: 0 };
    let (outcome, work) = drive(
        TokenRefresh::start(refresh_request()),
        vec![
            Reply::RefreshTokenRecord(Some(refresh_record(earlier, false))),
            Reply::Clock(NOW),
            Reply::Failed("delete failed".to_string()),
        ]
    );
    assert_eq!(outcome, Some(Err(RefreshTokenError::Unauthorized)));
    assert_eq!(work[2], Action::DeleteRefreshToken { token: "old".to_string() });
    let (outcome, _) = drive(TokenRefresh::start(refresh_request()), vec![Reply::RefreshTokenRecord(None)]);
    assert_eq!(outcome, Some(Err(RefreshTokenError::Unauthorized)));
}

#[test]
fn forgot_password_answers_success_for_unknown_address() {
    let req = ForgotPasswordRequest { email: "ghost@example.com".to_string() };
    let (outcome, work) = drive(ForgotPassword::start(req), vec![Reply::User(None)]);
    assert_eq!(outcome, Some(Ok(())));
    assert_eq!(work, vec![Action::FindUserByEmail { email: "ghost@example.com".to_string() }]);
}

#[test]
fn forgot_password_mails_a_token_valid_for_an_hour() {
    let req = ForgotPasswordRequest { email: "alice@example.com".to_string() };
    let (outcome, work) = drive(
        ForgotPassword::start(req),
        vec![Reply::User(Some(user(2))), text("reset"), Reply::Clock(NOW), Reply::Done, Reply::Done]
    );
    assert_eq!(outcome, Some(Ok(())));
    assert_eq!(
        work[3..],
        [
            Action::SavePasswordResetToken {
                user_id: 2,
                token: "reset".to_string(),
                expires_at: Timestamp { secs: NOW.secs + 3600, nanos: 0 },
            },
            Action::SendPasswordResetEmail {
                to_email: "alice@example.com".to_string(),
                username: "alice".to_string(),
                token: "reset".to_string(),
            },
        ]
    );
    let req = ForgotPasswordRequest { email: "alice@example.com".to_string() };
    let (outcome, _) = drive(
        ForgotPassword::start(req),
        vec![Reply::User(Some(user(2))), text("reset"), Reply::Clock(NOW), Reply::Done, Reply::Failed("smtp".to_string())]
    );
    assert_eq!(outcome, Some(Err(ForgotPasswordError::Unknown(Fault::Outside("smtp".to_string())))));
}

fn reset_record(expires_at: Timestamp) -> PasswordResetToken {
    PasswordResetToken { id: 1, user_id: 12, token: "reset".to_string(), expires_at, created_at: NOW }
}

fn reset_request() -> ResetPasswordRequest {
    ResetPasswordRequest { token: "reset".to_string(), new_password: "new password".to_string() }
}

#[test]
fn password_reset_stores_the_hash_and_revokes_tokens() {
    let later = Timestamp { secs: NOW.secs + 60, nanos: 0 };
    let (outcome, work) = drive(
        PasswordReset::start(reset_request()),
        vec![Reply::ResetToken(Some(reset_record(later))), Reply::Clock(NOW), text("$new$"), Reply::Done, Reply::Done]
    );
    assert_eq!(outcome, Some(Ok(())));
    assert_eq!(
        work,
        vec![
            Action::FindPasswordResetToken { token: "reset".to_string() },
            Action::ReadClock,
            Action::HashPassword { password: "new password".to_string() },
            Action::UpdatePassword { user_id: 12, password_hash: "$new$".to_string() },
            Action::DeleteAllPasswordResetTokens { user_id: 12 },
        ]
    );
}

#[test]
fn password_reset_refuses_expired_and_unknown_tokens() {
    let earlier = Timestamp { secs: NOW.secs - 60, nanos: 0 };
    let (outcome, work) = drive(
        PasswordReset::start(reset_request()),
        vec![Reply::ResetToken(Some(reset_record(earlier))), Reply::Clock(NOW), Reply::Done]
    );
    assert_eq!(outcome, Some(Err(ResetPasswordError::TokenIsExpired)));
    assert_eq!(work[2], Action::DeletePasswordResetToken { token: "reset".to_string() });
    let (outcome, _) = drive(PasswordReset::start(reset_request()), vec![Reply::ResetToken(None)]);
    assert_eq!(outcome, Some(Err(ResetPasswordError::TokenNotFound)));
}

#[test]
fn subject_written_for_an_id_reads_back_as_that_id() {
    for id in [0u128, 1, 0xffff_ffff_ffff_ffff_ffff_ffff_ffff_ffff, 0x0123_4567_89ab_cdef_fedc_ba98_7654_3210] {
        let subject = uuid::Uuid::from_u128(id).to_string();
        let (outcome, work) = drive(
            TokenAuthentication::start("jwt".to_string()),
            vec![text("s"), Reply::Subject(subject), Reply::User(None)],
        );
        assert_eq!(outcome, Some(Ok(None)));
        assert_eq!(work[2], Action::FindUserById { user_id: id });
    }
}

use axum_backend_series::fault::Fault;
use axum_backend_series::http::{
    token_from_authorization, ApiError, ForgotPasswordResponse, HealthReport, LoginResponse,
    LogoutResponse, OptionalAuth, RequireAuth, ResetPasswordResponse, UserData,
};
use axum_backend_series::models::password_reset_tokens::{ForgotPasswordError, ResetPasswordError};
use axum_backend_series::models::refresh_token::RefreshTokenError;
use axum_backend_series::models::user::{
    FindUserError, LoginError, LogoutError, RegisterUserError, User, VerifyEmailError,
};
use axum_backend_series::time::Timestamp;
use axum_backend_series::validation::{ValidationErrors, Violation};

fn user(bio: Option<&str>) -> User {
    User {
        id: 1,
        username: "alice".to_string(),
        email: "alice@example.com".to_string(),
        password_hash: "$hash$".to_string(),
        bio: bio.map(|b| b.to_string()),
        image: Some("https://example.com/a.png".to_string()),
        email_verified: true,
        created_at: Timestamp::new(0, 0),
        updated_at: Timestamp::new(0, 0),
    }
}

fn unknown() -> Fault {
    Fault::Outside("boom".to_string())
}

#[test]
fn user_data_shows_absent_bio_as_empty() {
    let shown = UserData::from_user(user(None));
    assert_eq!(shown.bio, "");
    assert_eq!(shown.email, "alice@example.com");
    assert_eq!(shown.username, "alice");
    assert_eq!(shown.image, Some("https://example.com/a.png".to_string()));
    assert!(shown.email_verified);
    assert_eq!(UserData::from_user(user(Some("hi"))).bio, "hi");
}

#[test]
fn login_response_carries_user_and_tokens() {
    let r = LoginResponse::new(user(None), "a".to_string(), "r".to_string());
    assert_eq!(r.user, UserData::from_user(user(None)));
    assert_eq!(r.access_token, "a");
    assert_eq!(r.refresh_token, "r");
}

#[test]
fn register_errors_map_to_conflict_or_internal() {
    let e = ApiError::from_register_user_error(RegisterUserError::DuplicateEmail {
        email: "a@b.com".to_string(),
    });
    assert_eq!(e, ApiError::Conflict("user with email a@b.com already exists".to_string()));
    assert_eq!(e.status_code(), 409);
    let e = ApiError::from_register_user_error(RegisterUserError::DuplicateUsername {
        username: "bob".to_string(),
    });
    assert_eq!(e, ApiError::Conflict("user with username bob already exists".to_string()));
    let e = ApiError::from_register_user_error(RegisterUserError::Unknown(unknown()));
    assert_eq!(e, ApiError::InternalServerError("Internal server error".to_string()));
    assert_eq!(e.status_code(), 500);
}

#[test]
fn other_errors_map_to_their_answers() {
    assert_eq!(ApiError::from_login_error(LoginError::Unauthorized), ApiError::Unauthorized);
    let internal = ApiError::InternalServerError("Internal Server Error".to_string());
    assert_eq!(ApiError::from_login_error(LoginError::Unknown(unknown())), internal);
    assert_eq!(ApiError::from_find_user_error(FindUserError::Unknown(unknown())), internal);
    assert_eq!(ApiError::from_verify_email_error(VerifyEmailError::IsExpired), ApiError::Gone);
    assert_eq!(ApiError::from_verify_email_error(VerifyEmailError::NotFound), ApiError::NotFound);
    assert_eq!(ApiError::from_verify_email_error(VerifyEmailError::Unknown(unknown())), internal);
    assert_eq!(ApiError::from_forgot_password_error(ForgotPasswordError::Unknown(unknown())), internal);
    assert_eq!(ApiError::from_reset_password_error(ResetPasswordError::TokenIsExpired), ApiError::Gone);
    assert_eq!(ApiError::from_reset_password_error(ResetPasswordError::TokenNotFound), ApiError::NotFound);
    assert_eq!(ApiError::from_reset_password_error(ResetPasswordError::Unknown(unknown())), internal);
    assert_eq!(ApiError::from_refresh_token_error(RefreshTokenError::Unauthorized), ApiError::Unauthorized);
    assert_eq!(ApiError::from_refresh_token_error(RefreshTokenError::Unknown(unknown())), internal);
    assert_eq!(ApiError::from_logout_error(LogoutError::Unknown(unknown())), internal);
}

#[test]
fn status_codes_of_every_answer() {
    assert_eq!(ApiError::BadRequest(String::new()).status_code(), 400);
    assert_eq!(ApiError::Conflict(String::new()).status_code(), 409);
    assert_eq!(ApiError::Gone.status_code(), 410);
    assert_eq!(ApiError::InternalServerError(String::new()).status_code(), 500);
    assert_eq!(ApiError::NotFound.status_code(), 404);
    assert_eq!(ApiError::Unauthorized.status_code(), 401);
    assert_eq!(ApiError::UnprocessableEntity(String::new()).status_code(), 422);
}

#[test]
fn validation_errors_become_bad_request() {
    let errs = ValidationErrors { violations: vec![Violation::EmailFormat] };
    assert_eq!(
        ApiError::from_validation_errors(errs),
        ApiError::BadRequest("email: Invalid email format".to_string())
    );
    assert_eq!(ApiError::missing_token(), ApiError::BadRequest("'token' is missing".to_string()));
}

#[test]
fn response_messages() {
    assert_eq!(
        ForgotPasswordResponse::new().message,
        "If that email exists, a password reset link has been sent."
    );
    assert_eq!(
        ResetPasswordResponse::new().message,
        "Password has been reset successfully. You can now login with your new password."
    );
    assert_eq!(LogoutResponse::new().message, "Logged out successfully");
}

#[test]
fn authorization_header_carries_token_after_scheme() {
    assert_eq!(token_from_authorization("Token abc.def"), Some("abc.def".to_string()));
    assert_eq!(token_from_authorization("Token "), Some(String::new()));
    assert_eq!(token_from_authorization("Bearer abc"), None);
    assert_eq!(token_from_authorization("token abc"), None);
    assert_eq!(token_from_authorization("Token"), None);
    assert_eq!(token_from_authorization(""), None);
    assert_eq!(token_from_authorization("Token ünï"), Some("ünï".to_string()));
}

#[test]
fn required_and_optional_authentication() {
    assert_eq!(RequireAuth::from_authentication(Ok(Some(user(None)))), Ok(RequireAuth(user(None))));
    assert_eq!(RequireAuth::from_authentication(Ok(None)), Err(ApiError::Unauthorized));
    assert_eq!(RequireAuth::from_authentication(Err(LoginError::Unauthorized)), Err(ApiError::Unauthorized));
    assert_eq!(
        RequireAuth::from_authentication(Err(LoginError::Unknown(unknown()))),
        Err(ApiError::InternalServerError("Internal Server Error".to_string()))
    );
    assert_eq!(OptionalAuth::from_authentication(Ok(None)), Ok(OptionalAuth(None)));
    assert_eq!(OptionalAuth::from_authentication(Err(LoginError::Unauthorized)), Ok(OptionalAuth(None)));
    assert_eq!(
        OptionalAuth::from_authentication(Ok(Some(user(None)))),
        Ok(OptionalAuth(Some(user(None))))
    );
    assert!(OptionalAuth::from_authentication(Err(LoginError::Unknown(unknown()))).is_err());
    assert_eq!(OptionalAuth::anonymous(), OptionalAuth(None));
}

#[test]
fn health_report_for_probe_results() {
    let ok = HealthReport::from_probe(Ok(()));
    assert_eq!((ok.status.as_str(), ok.database.as_str(), ok.error), ("ok", "connected", None));
    let bad = HealthReport::from_probe(Err("refused".to_string()));
    assert_eq!(bad.status, "error");
    assert_eq!(bad.database, "disconnected");
    assert_eq!(bad.error, Some("refused".to_string()));
}

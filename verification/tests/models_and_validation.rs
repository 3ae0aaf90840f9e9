use axum_backend_series::fault::Fault;
use axum_backend_series::models::email_verification_token::EmailVerificationToken;
use axum_backend_series::models::password_reset_tokens::{
    ForgotPasswordRequest, PasswordResetToken, ResetPasswordError, ResetPasswordRequest,
};
use axum_backend_series::models::refresh_token::{RefreshToken, RefreshTokenError};
use axum_backend_series::models::user::{
    CreateUserRequest, LoginError, LoginUserData, RegisterUserData, RegisterUserError,
    UpdateUserRequest, VerifyEmailError,
};
use axum_backend_series::time::Timestamp;
use axum_backend_series::validation::{ValidationErrors, Violation};

fn register_data(username: &str, email: &str, password: &str) -> RegisterUserData {
    RegisterUserData {
        username: username.to_string(),
        email: email.to_string(),
        password: password.to_string(),
    }
}

fn refresh_record(expires_at: Timestamp, is_used: bool) -> RefreshToken {
    RefreshToken {
        id: 1,
        user_id: 2,
        token: "r".to_string(),
        expires_at,
        is_used,
        used_at: None,
        created_at: Timestamp::new(0, 0),
        last_used_at: Timestamp::new(0, 0),
    }
}

#[test]
fn register_data_accepts_valid_account() {
    assert_eq!(register_data("alice", "alice@example.com", "correct horse").validate(), Ok(()));
}

#[test]
fn register_data_reports_every_broken_rule_in_field_order() {
    let err = register_data("al", "not-an-email", "short").validate().unwrap_err();
    assert_eq!(
        err.violations,
        vec![Violation::UsernameLength, Violation::EmailFormat, Violation::PasswordLength]
    );
    assert_eq!(
        err.to_message(),
        "username: Username must be between 3 and 50 characters\n\
         email: Invalid email format\n\
         password: Password must be at least 8 characters"
    );
}

#[test]
fn username_length_bounds_count_characters() {
    assert!(register_data("abc", "a@b.com", "12345678").validate().is_ok());
    assert!(register_data(&"x".repeat(50), "a@b.com", "12345678").validate().is_ok());
    assert!(register_data(&"x".repeat(51), "a@b.com", "12345678").validate().is_err());
    // three characters, six bytes
    assert!(register_data("ééé", "a@b.com", "12345678").validate().is_ok());
    assert!(register_data("éé", "a@b.com", "12345678").validate().is_err());
}

#[test]
fn password_of_exactly_eight_characters_is_enough() {
    assert!(register_data("alice", "a@b.com", "12345678").validate().is_ok());
    let err = register_data("alice", "a@b.com", "1234567").validate().unwrap_err();
    assert_eq!(err.violations, vec![Violation::PasswordLength]);
}

#[test]
fn email_check_uses_validator_rules() {
    assert!(register_data("alice", "email@here.com", "12345678").validate().is_ok());
    assert!(register_data("alice", "abc@bar", "12345678").validate().is_ok());
    assert!(register_data("alice", "abc", "12345678").validate().is_err());
    assert!(register_data("alice", "", "12345678").validate().is_err());
    assert!(register_data("alice", "something@@somewhere.com", "12345678").validate().is_err());
}

#[test]
fn login_data_requires_email_and_password() {
    let ok = LoginUserData { email: "a@b.com".to_string(), password: "x".to_string() };
    assert_eq!(ok.validate(), Ok(()));
    let bad = LoginUserData { email: "nope".to_string(), password: String::new() };
    let err = bad.validate().unwrap_err();
    assert_eq!(err.violations, vec![Violation::EmailFormat, Violation::PasswordRequired]);
    assert_eq!(err.to_message(), "email: Invalid email format\npassword: Password is required");
}

#[test]
fn create_user_request_has_the_registration_rules() {
    let req = CreateUserRequest {
        username: "bo".to_string(),
        email: "bo@example.com".to_string(),
        password: "12345678".to_string(),
    };
    assert_eq!(req.validate().unwrap_err().violations, vec![Violation::UsernameLength]);
}

#[test]
fn update_request_checks_only_present_fields() {
    let empty = UpdateUserRequest { username: None, email: None, bio: None, image: None };
    assert_eq!(empty.validate(), Ok(()));
    let bad = UpdateUserRequest {
        username: Some("x".to_string()),
        email: Some("y".to_string()),
        bio: Some("b".repeat(501)),
        image: Some("not a url".to_string()),
    };
    assert_eq!(
        bad.validate().unwrap_err().violations,
        vec![
            Violation::UsernameLength,
            Violation::EmailFormat,
            Violation::BioLength,
            Violation::ImageUrl
        ]
    );
    let good = UpdateUserRequest {
        username: Some("carol".to_string()),
        email: Some("carol@example.com".to_string()),
        bio: Some("b".repeat(500)),
        image: Some("https://example.com/me.png".to_string()),
    };
    assert_eq!(good.validate(), Ok(()));
}

#[test]
fn forgot_and_reset_requests_have_their_rules() {
    let forgot = ForgotPasswordRequest { email: "x".to_string() };
    assert_eq!(forgot.validate().unwrap_err().to_message(), "email: Invalid email format");
    let reset = ResetPasswordRequest { token: "t".to_string(), new_password: "short".to_string() };
    assert_eq!(
        reset.validate().unwrap_err().to_message(),
        "new_password: Password must be at least 8 characters"
    );
    let reset_ok =
        ResetPasswordRequest { token: "t".to_string(), new_password: "long enough".to_string() };
    assert_eq!(reset_ok.validate(), Ok(()));
}

#[test]
fn empty_report_text_is_empty() {
    assert_eq!(ValidationErrors { violations: vec![] }.to_message(), "");
}

#[test]
fn refresh_token_expiry_is_strict() {
    let record = refresh_record(Timestamp::new(100, 5), false);
    assert!(!record.is_expired_at(Timestamp::new(100, 5)));
    assert!(record.is_expired_at(Timestamp::new(100, 6)));
    assert!(record.is_expired_at(Timestamp::new(101, 0)));
    assert!(!record.is_expired_at(Timestamp::new(99, 999_999_999)));
}

#[test]
fn refresh_token_is_valid_when_unexpired_and_unused() {
    let at = Timestamp::new(50, 0);
    assert!(refresh_record(Timestamp::new(100, 0), false).is_valid_at(at));
    assert!(!refresh_record(Timestamp::new(100, 0), true).is_valid_at(at));
    assert!(!refresh_record(Timestamp::new(10, 0), false).is_valid_at(at));
}

#[test]
fn clock_based_checks_follow_the_system_clock() {
    let far_future = Timestamp::new(i64::MAX, 0);
    let long_past = Timestamp::new(-1, 0);
    assert!(!refresh_record(far_future, false).is_expired());
    assert!(refresh_record(far_future, false).is_valid());
    assert!(refresh_record(long_past, false).is_expired());
    assert!(!refresh_record(far_future, true).is_valid());
    let reset = PasswordResetToken {
        id: 1,
        user_id: 2,
        token: "t".to_string(),
        expires_at: long_past,
        created_at: long_past,
    };
    assert!(reset.is_expired());
    let verification = EmailVerificationToken {
        id: 1,
        user_id: 2,
        token: "t".to_string(),
        expires_at: far_future,
        created_at: long_past,
    };
    assert!(!verification.is_expired());
    // the clock reads a moment after 2020
    let recent = Timestamp::new(1_600_000_000, 0);
    assert!(refresh_record(recent, false).is_expired());
}

#[test]
fn add_hours_moves_seconds_and_detects_overflow() {
    let t = Timestamp::new(1_000, 7);
    assert_eq!(t.checked_add_hours(24), Some(Timestamp::new(1_000 + 86_400, 7)));
    assert_eq!(Timestamp::new(8_210_266_876_799 - 3599, 0).checked_add_hours(1), None);
    assert_eq!(
        Timestamp::new(8_210_266_876_799 - 3600, 0).checked_add_hours(1),
        Some(Timestamp::new(8_210_266_876_799, 0))
    );
    assert!(Timestamp::new(5, 1).is_later_than(&Timestamp::new(5, 0)));
    assert!(!Timestamp::new(5, 0).is_later_than(&Timestamp::new(5, 0)));
}

#[test]
fn error_texts_match_their_display() {
    let dup = RegisterUserError::DuplicateEmail { email: "a@b.com".to_string() };
    assert_eq!(dup.message(), "user with email 'a@b.com' already exists");
    let dup = RegisterUserError::DuplicateUsername { username: "bob".to_string() };
    assert_eq!(dup.message(), "user with username 'bob' already exists");
    assert_eq!(
        LoginError::Unauthorized.message(),
        "that combination of user and password doesn't exist"
    );
    assert_eq!(VerifyEmailError::IsExpired.message(), "email verification token is expired");
    assert_eq!(VerifyEmailError::NotFound.message(), "email verification token is not found");
    assert_eq!(ResetPasswordError::TokenIsExpired.message(), "Token is expired");
    assert_eq!(ResetPasswordError::TokenNotFound.message(), "Cannot find token");
    assert_eq!(RefreshTokenError::Unauthorized.message(), "no such token");
    let outside = LoginError::Unknown(Fault::Outside("db down".to_string()));
    assert_eq!(outside.message(), "db down");
}

#[test]
fn missing_user_fault_names_the_id() {
    let fault = Fault::MissingUser(0x67e5_5044_10b1_426f_9247_bb68_0e5f_e0c8);
    assert_eq!(
        fault.message(),
        "User with id '67e55044-10b1-426f-9247-bb680e5fe0c8' is missing,"
    );
    assert_eq!(Fault::ExpiryOutOfRange.message(), "expiry time out of range");
}

#[test]
fn last_representable_second_is_chronos() {
    assert_eq!(
        chrono::DateTime::<chrono::Utc>::MAX_UTC.timestamp(),
        axum_backend_series::time::MAX_SECS
    );
}

#[test]
fn first_representable_second_is_chronos() {
    assert_eq!(
        chrono::DateTime::<chrono::Utc>::MIN_UTC.timestamp(),
        axum_backend_series::time::MIN_SECS
    );
}

#[test]
fn add_hours_goes_both_ways_and_never_overflows() {
    let t = Timestamp::new(10_000, 3);
    assert_eq!(t.checked_add_hours(-2), Some(Timestamp::new(10_000 - 7_200, 3)));
    let first = Timestamp::new(axum_backend_series::time::MIN_SECS, 0);
    assert_eq!(first.checked_add_hours(-1), None);
    assert_eq!(first.checked_add_hours(0), Some(first));
    assert_eq!(t.checked_add_hours(i64::MAX), None);
    assert_eq!(t.checked_add_hours(i64::MIN), None);
}

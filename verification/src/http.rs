//! What the HTTP layer answers: the error answers and their status codes,
//! the response bodies, and reading the bearer of an access token.

use vstd::prelude::*;
use vstd::string::*;
use crate::models::password_reset_tokens::{ForgotPasswordError, ResetPasswordError};
use crate::models::refresh_token::RefreshTokenError;
use crate::models::user::{
    FindUserError, LoginError, LogoutError, RegisterUserError, User, VerifyEmailError,
};
use crate::service::account::AuthenticationOutcome;
use crate::validation::{violations_text, ValidationErrors};

verus! {

/// An error answer.
#[derive(Clone, Debug, PartialEq, Eq)]
pub enum ApiError {
    BadRequest(String),
    Conflict(String),
    Gone,
    InternalServerError(String),
    NotFound,
    Unauthorized,
    UnprocessableEntity(String),
}

/// An error answer with its texts as character sequences.
pub enum ApiErrorView {
    BadRequest(Seq<char>),
    Conflict(Seq<char>),
    Gone,
    InternalServerError(Seq<char>),
    NotFound,
    Unauthorized,
    UnprocessableEntity(Seq<char>),
}

impl View for ApiError {
    type V = ApiErrorView;

    open spec fn view(&self) -> ApiErrorView {
        match self {
            ApiError::BadRequest(m) => ApiErrorView::BadRequest(m@),
            ApiError::Conflict(m) => ApiErrorView::Conflict(m@),
            ApiError::Gone => ApiErrorView::Gone,
            ApiError::InternalServerError(m) => ApiErrorView::InternalServerError(m@),
            ApiError::NotFound => ApiErrorView::NotFound,
            ApiError::Unauthorized => ApiErrorView::Unauthorized,
            ApiError::UnprocessableEntity(m) => ApiErrorView::UnprocessableEntity(m@),
        }
    }
}

/// The HTTP status of an error answer.
pub open spec fn status_of(e: ApiErrorView) -> u16 {
    match e {
        ApiErrorView::BadRequest(_) => 400,
        ApiErrorView::Conflict(_) => 409,
        ApiErrorView::Gone => 410,
        ApiErrorView::InternalServerError(_) => 500,
        ApiErrorView::NotFound => 404,
        ApiErrorView::Unauthorized => 401,
        ApiErrorView::UnprocessableEntity(_) => 422,
    }
}

/// The answer to an internal failure of a registration.
pub open spec fn register_internal_text() -> Seq<char> {
    "Internal server error"@
}

/// The answer to an internal failure of any other operation.
pub open spec fn internal_text() -> Seq<char> {
    "Internal Server Error"@
}

/// The answer to a registration error.
pub open spec fn register_error_answer(err: RegisterUserError) -> ApiErrorView {
    match err {
        RegisterUserError::DuplicateEmail { email } => ApiErrorView::Conflict(
            "user with email "@ + email@ + " already exists"@,
        ),
        RegisterUserError::DuplicateUsername { username } => ApiErrorView::Conflict(
            "user with username "@ + username@ + " already exists"@,
        ),
        RegisterUserError::Unknown(_) => ApiErrorView::InternalServerError(
            register_internal_text(),
        ),
    }
}

fn internal_server_error() -> (res: ApiError)
    ensures
        res@ == ApiErrorView::InternalServerError(internal_text()),
{
    ApiError::InternalServerError(String::from_str("Internal Server Error"))
}

impl ApiError {
    /// The HTTP status code of the answer.
    pub fn status_code(&self) -> (code: u16)
        ensures
            code == status_of(self@),
    {
        match self {
            ApiError::BadRequest(_) => 400,
            ApiError::Conflict(_) => 409,
            ApiError::Gone => 410,
            ApiError::InternalServerError(_) => 500,
            ApiError::NotFound => 404,
            ApiError::Unauthorized => 401,
            ApiError::UnprocessableEntity(_) => 422,
        }
    }

    pub fn from_register_user_error(err: RegisterUserError) -> (res: ApiError)
        ensures
            res@ == register_error_answer(err),
    {
        match err {
            RegisterUserError::DuplicateEmail { email } => {
                let mut m = String::from_str("user with email ");
                m.append(email.as_str());
                m.append(" already exists");
                ApiError::Conflict(m)
            },
            RegisterUserError::DuplicateUsername { username } => {
                let mut m = String::from_str("user with username ");
                m.append(username.as_str());
                m.append(" already exists");
                ApiError::Conflict(m)
            },
            RegisterUserError::Unknown(_) => ApiError::InternalServerError(
                String::from_str("Internal server error"),
            ),
        }
    }

    pub fn from_login_error(err: LoginError) -> (res: ApiError)
        ensures
            res@ == (match err {
                LoginError::Unauthorized => ApiErrorView::Unauthorized,
                LoginError::Unknown(_) => ApiErrorView::InternalServerError(internal_text()),
            }),
    {
        match err {
            LoginError::Unauthorized => ApiError::Unauthorized,
            LoginError::Unknown(_) => internal_server_error(),
        }
    }

    pub fn from_find_user_error(err: FindUserError) -> (res: ApiError)
        ensures
            res@ == ApiErrorView::InternalServerError(internal_text()),
    {
        match err {
            FindUserError::Unknown(_) => internal_server_error(),
        }
    }

    pub fn from_verify_email_error(err: VerifyEmailError) -> (res: ApiError)
        ensures
            res@ == (match err {
                VerifyEmailError::IsExpired => ApiErrorView::Gone,
                VerifyEmailError::NotFound => ApiErrorView::NotFound,
                VerifyEmailError::Unknown(_) => ApiErrorView::InternalServerError(internal_text()),
            }),
    {
        match err {
            VerifyEmailError::IsExpired => ApiError::Gone,
            VerifyEmailError::NotFound => ApiError::NotFound,
            VerifyEmailError::Unknown(_) => internal_server_error(),
        }
    }

    pub fn from_forgot_password_error(err: ForgotPasswordError) -> (res: ApiError)
        ensures
            res@ == ApiErrorView::InternalServerError(internal_text()),
    {
        match err {
            ForgotPasswordError::Unknown(_) => internal_server_error(),
        }
    }

    pub fn from_reset_password_error(err: ResetPasswordError) -> (res: ApiError)
        ensures
            res@ == (match err {
                ResetPasswordError::TokenIsExpired => ApiErrorView::Gone,
                ResetPasswordError::TokenNotFound => ApiErrorView::NotFound,
                ResetPasswordError::Unknown(_) => ApiErrorView::InternalServerError(
                    internal_text(),
                ),
            }),
    {
        match err {
            ResetPasswordError::TokenIsExpired => ApiError::Gone,
            ResetPasswordError::TokenNotFound => ApiError::NotFound,
            ResetPasswordError::Unknown(_) => internal_server_error(),
        }
    }

    pub fn from_refresh_token_error(err: RefreshTokenError) -> (res: ApiError)
        ensures
            res@ == (match err {
                RefreshTokenError::Unauthorized => ApiErrorView::Unauthorized,
                RefreshTokenError::Unknown(_) => ApiErrorView::InternalServerError(
                    internal_text(),
                ),
            }),
    {
        match err {
            RefreshTokenError::Unauthorized => ApiError::Unauthorized,
            RefreshTokenError::Unknown(_) => internal_server_error(),
        }
    }

    pub fn from_logout_error(err: LogoutError) -> (res: ApiError)
        ensures
            res@ == ApiErrorView::InternalServerError(internal_text()),
    {
        match err {
            LogoutError::Unknown(_) => internal_server_error(),
        }
    }

    /// A request whose fields break their rules: the report of the broken rules.
    pub fn from_validation_errors(err: ValidationErrors) -> (res: ApiError)
        ensures
            res@ == ApiErrorView::BadRequest(violations_text(err.violations@)),
    {
        ApiError::BadRequest(err.to_message())
    }

    /// A verification link without its `token` query parameter.
    pub fn missing_token() -> (res: ApiError)
        ensures
            res@ == ApiErrorView::BadRequest("'token' is missing"@),
    {
        ApiError::BadRequest(String::from_str("'token' is missing"))
    }
}

/// The public part of a user, as the API shows it.
#[derive(Clone, Debug, PartialEq, Eq)]
pub struct UserData {
    pub email: String,
    pub username: String,
    pub bio: String,
    pub image: Option<String>,
    pub email_verified: bool,
}

impl UserData {
    /// The user as shown: an absent bio shows as the empty text.
    pub fn from_user(user: User) -> (res: UserData)
        ensures
            res.email == user.email,
            res.username == user.username,
            res.bio@ == (match user.bio {
                Some(b) => b@,
                None => Seq::<char>::empty(),
            }),
            res.image == user.image,
            res.email_verified == user.email_verified,
    {
        let bio = match user.bio {
            Some(b) => b,
            None => String::new(),
        };
        UserData {
            email: user.email,
            username: user.username,
            bio,
            image: user.image,
            email_verified: user.email_verified,
        }
    }
}

/// The answer to a registration or a login.
#[derive(Clone, Debug, PartialEq, Eq)]
pub struct LoginResponse {
    pub user: UserData,
    pub access_token: String,
    pub refresh_token: String,
}

impl LoginResponse {
    pub fn new(user: User, access_token: String, refresh_token: String) -> (res: LoginResponse)
        ensures
            res.user.email == user.email,
            res.user.username == user.username,
            res.user.bio@ == (match user.bio {
                Some(b) => b@,
                None => Seq::<char>::empty(),
            }),
            res.user.image == user.image,
            res.user.email_verified == user.email_verified,
            res.access_token == access_token,
            res.refresh_token == refresh_token,
    {
        LoginResponse { user: UserData::from_user(user), access_token, refresh_token }
    }
}

/// The answer to a request for the current user.
#[derive(Clone, Debug, PartialEq, Eq)]
pub struct UserResponse {
    pub user: UserData,
}

/// The answer to a forgot-password request.
#[derive(Clone, Debug, PartialEq, Eq)]
pub struct ForgotPasswordResponse {
    pub message: String,
}

impl ForgotPasswordResponse {
    /// The same answer whether or not the address is registered.
    pub fn new() -> (res: ForgotPasswordResponse)
        ensures
            res.message@ == "If that email exists, a password reset link has been sent."@,
    {
        ForgotPasswordResponse {
            message: String::from_str("If that email exists, a password reset link has been sent."),
        }
    }
}

/// The answer to a password reset.
#[derive(Clone, Debug, PartialEq, Eq)]
pub struct ResetPasswordResponse {
    pub message: String,
}

impl ResetPasswordResponse {
    pub fn new() -> (res: ResetPasswordResponse)
        ensures
            res.message@
                == "Password has been reset successfully. You can now login with your new password."@,
    {
        ResetPasswordResponse {
            message: String::from_str(
                "Password has been reset successfully. You can now login with your new password.",
            ),
        }
    }
}

/// The answer to a refresh.
#[derive(Clone, Debug, PartialEq, Eq)]
pub struct RefreshTokenResponse {
    pub access_token: String,
    pub refresh_token: String,
}

/// The answer to a logout.
#[derive(Clone, Debug, PartialEq, Eq)]
pub struct LogoutResponse {
    pub message: String,
}

impl LogoutResponse {
    pub fn new() -> (res: LogoutResponse)
        ensures
            res.message@ == "Logged out successfully"@,
    {
        LogoutResponse { message: String::from_str("Logged out successfully") }
    }
}

/// The scheme word that an `Authorization` header starts with, and its space.
pub open spec fn token_scheme() -> Seq<char> {
    seq!['T', 'o', 'k', 'e', 'n', ' ']
}

/// The access token that an `Authorization` header value carries: what follows
/// `Token ` when the value starts with it.
pub open spec fn bearer_of(header: Seq<char>) -> Option<Seq<char>> {
    if header.len() >= 6 && header.subrange(0, 6) == token_scheme() {
        Some(header.subrange(6, header.len() as int))
    } else {
        None
    }
}

/// Reads the access token from an `Authorization` header value.
pub fn token_from_authorization(header: &str) -> (res: Option<String>)
    ensures
        res is Some <==> bearer_of(header@) is Some,
        res matches Some(t) ==> bearer_of(header@) == Some(t@),
{
    let n = header.unicode_len();
    if n < 6 {
        return None;
    }
    let scheme = ['T', 'o', 'k', 'e', 'n', ' '];
    let mut i: usize = 0;
    while i < 6
        invariant
            n == header@.len(),
            6 <= n,
            i <= 6,
            scheme@ == token_scheme(),
            forall|j: int| 0 <= j < i ==> header@[j] == token_scheme()[j],
        decreases 6 - i,
    {
        if header.get_char(i) != scheme[i] {
            assert(header@.subrange(0, 6)[i as int] != token_scheme()[i as int]);
            return None;
        }
        i = i + 1;
    }
    assert(header@.subrange(0, 6) =~= token_scheme());
    let rest = header.substring_char(6, n);
    Some(String::from_str(rest))
}

/// A header value made of `Token ` and then a token carries exactly that token.
pub proof fn lemma_bearer_round_trip(token: Seq<char>)
    ensures
        bearer_of(token_scheme() + token) == Some(token),
{
    assert((token_scheme() + token).subrange(0, 6) =~= token_scheme());
    assert((token_scheme() + token).subrange(6, (token_scheme() + token).len() as int) =~= token);
}

/// Every error answer has a client-error or a server-error status, and only
/// internal failures have a server-error status.
pub proof fn lemma_error_statuses(e: ApiErrorView)
    ensures
        400 <= status_of(e) < 600,
        status_of(e) >= 500 <==> e is InternalServerError,
{
}

/// A request that needs a signed-in user.
#[derive(Clone, Debug, PartialEq, Eq)]
pub struct RequireAuth(pub User);

impl RequireAuth {
    /// The signed-in user from the outcome of authenticating the access token:
    /// refused when no user was found.
    pub fn from_authentication(outcome: AuthenticationOutcome) -> (res: Result<RequireAuth, ApiError>)
        ensures
            (match outcome {
                Ok(Some(user)) => res == Ok::<RequireAuth, ApiError>(RequireAuth(user)),
                Ok(None) => res matches Err(e) && e@ == ApiErrorView::Unauthorized,
                Err(LoginError::Unauthorized) => res matches Err(e) && e@ == ApiErrorView::Unauthorized,
                Err(LoginError::Unknown(_)) => res matches Err(e)
                    && e@ == ApiErrorView::InternalServerError(internal_text()),
            }),
    {
        match outcome {
            Ok(Some(user)) => Ok(RequireAuth(user)),
            Ok(None) => Err(ApiError::Unauthorized),
            Err(e) => Err(ApiError::from_login_error(e)),
        }
    }
}

/// A request that may come from a signed-in user.
#[derive(Clone, Debug, PartialEq, Eq)]
pub struct OptionalAuth(pub Option<User>);

impl OptionalAuth {
    /// A request without a token is anonymous.
    pub fn anonymous() -> (res: OptionalAuth)
        ensures
            res.0 is None,
    {
        OptionalAuth(None)
    }

    /// The user, if any, from the outcome of authenticating the access token:
    /// a refused token counts as no user, other failures stay failures.
    pub fn from_authentication(outcome: AuthenticationOutcome) -> (res: Result<OptionalAuth, ApiError>)
        ensures
            (match outcome {
                Ok(found) => res == Ok::<OptionalAuth, ApiError>(OptionalAuth(found)),
                Err(LoginError::Unauthorized) => res == Ok::<OptionalAuth, ApiError>(OptionalAuth(None)),
                Err(LoginError::Unknown(_)) => res matches Err(e)
                    && e@ == ApiErrorView::InternalServerError(internal_text()),
            }),
    {
        match outcome {
            Ok(found) => Ok(OptionalAuth(found)),
            Err(LoginError::Unauthorized) => Ok(OptionalAuth(None)),
            Err(e) => Err(ApiError::from_login_error(e)),
        }
    }
}

/// The state of the service as the health check reports it.
#[derive(Clone, Debug, PartialEq, Eq)]
pub struct HealthReport {
    pub status: String,
    pub database: String,
    pub error: Option<String>,
}

impl HealthReport {
    /// The report for the result of probing the database: `ok` and
    /// `connected`, or `error`, `disconnected` and the probe's message.
    pub fn from_probe(probe: Result<(), String>) -> (res: HealthReport)
        ensures
            (match probe {
                Ok(()) => res.status@ == "ok"@ && res.database@ == "connected"@ && res.error is None,
                Err(m) => res.status@ == "error"@ && res.database@ == "disconnected"@
                    && res.error == Some(m),
            }),
    {
        match probe {
            Ok(()) => HealthReport {
                status: String::from_str("ok"),
                database: String::from_str("connected"),
                error: None,
            },
            Err(m) => HealthReport {
                status: String::from_str("error"),
                database: String::from_str("disconnected"),
                error: Some(m),
            },
        }
    }
}

} // verus!

//! The short operations: logging out, finding a user by id, signing an
//! access token for a user, and finding the user that an access token names.

use vstd::prelude::*;
use crate::identity::{parse_user_id, uuid_from_text, uuid_hyphenated};
use crate::models::user::{FindUserError, LoginError, LogoutError, User};
use crate::service::{fault_from, fault_of, Action, Reply, Step};
use crate::fault::Fault;

verus! {

/// Logging out: delete the presented refresh token.
#[derive(Clone, Debug, PartialEq, Eq)]
pub enum Logout {
    Deleting { token: String },
}

impl Logout {
    /// Starts a logout by deleting the refresh token.
    pub fn start(refresh_token: String) -> (res: (Logout, Action))
        ensures
            res.0 == (Logout::Deleting { token: refresh_token }),
            res.1 == res.0.awaiting(),
    {
        let s = Logout::Deleting { token: refresh_token };
        let work = s.announce();
        (s, work)
    }

    pub open spec fn awaiting(self) -> Action {
        match self {
            Logout::Deleting { token } => Action::DeleteRefreshToken { token },
        }
    }

    pub open spec fn next(self, reply: Reply) -> Step<Self, Result<(), LogoutError>> {
        match reply {
            Reply::Done => Step::Finish(Ok(())),
            other => Step::Finish(Err(LogoutError::Unknown(fault_of(other)))),
        }
    }

    pub fn announce(&self) -> (work: Action)
        ensures
            work == self.awaiting(),
    {
        match self {
            Logout::Deleting { token } => Action::DeleteRefreshToken { token: token.clone() },
        }
    }

    pub fn step(self, reply: Reply) -> (res: Step<Self, Result<(), LogoutError>>)
        ensures
            res == self.next(reply),
    {
        match reply {
            Reply::Done => Step::Finish(Ok(())),
            other => Step::Finish(Err(LogoutError::Unknown(fault_from(other)))),
        }
    }
}

/// Finding a user by id.
#[derive(Clone, Debug, PartialEq, Eq)]
pub enum UserLookup {
    Finding { user_id: u128 },
}

impl UserLookup {
    pub fn start(user_id: u128) -> (res: (UserLookup, Action))
        ensures
            res.0 == (UserLookup::Finding { user_id }),
            res.1 == res.0.awaiting(),
    {
        (UserLookup::Finding { user_id }, Action::FindUserById { user_id })
    }

    pub open spec fn awaiting(self) -> Action {
        match self {
            UserLookup::Finding { user_id } => Action::FindUserById { user_id },
        }
    }

    pub open spec fn next(self, reply: Reply) -> Step<Self, Result<Option<User>, FindUserError>> {
        match reply {
            Reply::User(found) => Step::Finish(Ok(found)),
            other => Step::Finish(Err(FindUserError::Unknown(fault_of(other)))),
        }
    }

    pub fn announce(&self) -> (work: Action)
        ensures
            work == self.awaiting(),
    {
        match self {
            UserLookup::Finding { user_id } => Action::FindUserById { user_id: *user_id },
        }
    }

    pub fn step(self, reply: Reply) -> (res: Step<Self, Result<Option<User>, FindUserError>>)
        ensures
            res == self.next(reply),
    {
        match reply {
            Reply::User(found) => Step::Finish(Ok(found)),
            other => Step::Finish(Err(FindUserError::Unknown(fault_from(other)))),
        }
    }
}

/// Signing a fresh access token for a user (`AuthService::generate_token_for_user`).
#[derive(Clone, Debug, PartialEq, Eq)]
pub enum AccessTokenIssue {
    ReadingSecret { user_id: u128 },
    Signing { user_id: u128, secret: String },
}

impl AccessTokenIssue {
    pub fn start(user_id: u128) -> (res: (AccessTokenIssue, Action))
        ensures
            res.0 == (AccessTokenIssue::ReadingSecret { user_id }),
            res.1 == res.0.awaiting(),
    {
        (AccessTokenIssue::ReadingSecret { user_id }, Action::ReadJwtSecret)
    }

    pub open spec fn awaiting(self) -> Action {
        match self {
            AccessTokenIssue::ReadingSecret { .. } => Action::ReadJwtSecret,
            AccessTokenIssue::Signing { user_id, secret } => Action::IssueAccessToken {
                user_id,
                secret,
            },
        }
    }

    pub open spec fn next(self, reply: Reply) -> Step<Self, Result<String, FindUserError>> {
        match self {
            AccessTokenIssue::ReadingSecret { user_id } => match reply {
                Reply::Text(secret) => {
                    let s = AccessTokenIssue::Signing { user_id, secret };
                    Step::Continue(s, s.awaiting())
                },
                other => Step::Finish(Err(FindUserError::Unknown(fault_of(other)))),
            },
            AccessTokenIssue::Signing { .. } => match reply {
                Reply::Text(token) => Step::Finish(Ok(token)),
                other => Step::Finish(Err(FindUserError::Unknown(fault_of(other)))),
            },
        }
    }

    pub fn announce(&self) -> (work: Action)
        ensures
            work == self.awaiting(),
    {
        match self {
            AccessTokenIssue::ReadingSecret { .. } => Action::ReadJwtSecret,
            AccessTokenIssue::Signing { user_id, secret } => Action::IssueAccessToken {
                user_id: *user_id,
                secret: secret.clone(),
            },
        }
    }

    pub fn step(self, reply: Reply) -> (res: Step<Self, Result<String, FindUserError>>)
        ensures
            res == self.next(reply),
    {
        match self {
            AccessTokenIssue::ReadingSecret { user_id } => match reply {
                Reply::Text(secret) => {
                    let s = AccessTokenIssue::Signing { user_id, secret };
                    let work = s.announce();
                    Step::Continue(s, work)
                },
                other => Step::Finish(Err(FindUserError::Unknown(fault_from(other)))),
            },
            AccessTokenIssue::Signing { .. } => match reply {
                Reply::Text(token) => Step::Finish(Ok(token)),
                other => Step::Finish(Err(FindUserError::Unknown(fault_from(other)))),
            },
        }
    }
}

/// Finding the user that an access token names (`AuthService::get_user_from_token`):
/// check the token with the signing secret, read the user id from its subject,
/// look the user up. A token that does not check, or whose subject is not a
/// user id, is refused as unauthorized.
#[derive(Clone, Debug, PartialEq, Eq)]
pub enum TokenAuthentication {
    ReadingSecret { token: String },
    Validating { token: String, secret: String },
    Finding { user_id: u128 },
}

pub type AuthenticationOutcome = Result<Option<User>, LoginError>;

/// The subject that a `Reply::Subject` carries.
pub open spec fn subject_of(reply: Reply) -> String {
    reply->Subject_0
}

impl TokenAuthentication {
    pub fn start(token: String) -> (res: (TokenAuthentication, Action))
        ensures
            res.0 == (TokenAuthentication::ReadingSecret { token }),
            res.1 == res.0.awaiting(),
    {
        (TokenAuthentication::ReadingSecret { token }, Action::ReadJwtSecret)
    }

    pub open spec fn awaiting(self) -> Action {
        match self {
            TokenAuthentication::ReadingSecret { .. } => Action::ReadJwtSecret,
            TokenAuthentication::Validating { token, secret } => Action::ValidateAccessToken {
                token,
                secret,
            },
            TokenAuthentication::Finding { user_id } => Action::FindUserById { user_id },
        }
    }

    pub open spec fn next(self, reply: Reply) -> Step<Self, AuthenticationOutcome> {
        match self {
            TokenAuthentication::ReadingSecret { token } => match reply {
                Reply::Text(secret) => {
                    let s = TokenAuthentication::Validating { token, secret };
                    Step::Continue(s, s.awaiting())
                },
                other => Step::Finish(Err(LoginError::Unknown(fault_of(other)))),
            },
            TokenAuthentication::Validating { .. } => match reply {
                Reply::Subject(subject) => match uuid_from_text(subject@) {
                    Some(user_id) => {
                        let s = TokenAuthentication::Finding { user_id };
                        Step::Continue(s, s.awaiting())
                    },
                    None => Step::Finish(Err(LoginError::Unauthorized)),
                },
                Reply::Failed(_) => Step::Finish(Err(LoginError::Unauthorized)),
                _ => Step::Finish(Err(LoginError::Unknown(Fault::UnexpectedReply))),
            },
            TokenAuthentication::Finding { .. } => match reply {
                Reply::User(found) => Step::Finish(Ok(found)),
                other => Step::Finish(Err(LoginError::Unknown(fault_of(other)))),
            },
        }
    }

    pub fn announce(&self) -> (work: Action)
        ensures
            work == self.awaiting(),
    {
        match self {
            TokenAuthentication::ReadingSecret { .. } => Action::ReadJwtSecret,
            TokenAuthentication::Validating { token, secret } => Action::ValidateAccessToken {
                token: token.clone(),
                secret: secret.clone(),
            },
            TokenAuthentication::Finding { user_id } => Action::FindUserById {
                user_id: *user_id,
            },
        }
    }

    /// Takes a reply and decides. A checked token whose subject is the text
    /// that a user id is written as leads to looking up exactly that id.
    pub fn step(self, reply: Reply) -> (res: Step<Self, AuthenticationOutcome>)
        ensures
            res == self.next(reply),
            forall|id: u128|
                self is Validating && reply == Reply::Subject(subject_of(reply))
                    && #[trigger] uuid_hyphenated(id) == subject_of(reply)@ ==> res == Step::<
                    TokenAuthentication,
                    AuthenticationOutcome,
                >::Continue(TokenAuthentication::Finding { user_id: id }, Action::FindUserById { user_id: id }),
    {
        match self {
            TokenAuthentication::ReadingSecret { token } => match reply {
                Reply::Text(secret) => {
                    let s = TokenAuthentication::Validating { token, secret };
                    let work = s.announce();
                    Step::Continue(s, work)
                },
                other => Step::Finish(Err(LoginError::Unknown(fault_from(other)))),
            },
            TokenAuthentication::Validating { .. } => match reply {
                Reply::Subject(subject) => match parse_user_id(subject.as_str()) {
                    Some(user_id) => {
                        let s = TokenAuthentication::Finding { user_id };
                        let work = s.announce();
                        Step::Continue(s, work)
                    },
                    None => Step::Finish(Err(LoginError::Unauthorized)),
                },
                Reply::Failed(_) => Step::Finish(Err(LoginError::Unauthorized)),
                _ => Step::Finish(Err(LoginError::Unknown(Fault::UnexpectedReply))),
            },
            TokenAuthentication::Finding { .. } => match reply {
                Reply::User(found) => Step::Finish(Ok(found)),
                other => Step::Finish(Err(LoginError::Unknown(fault_from(other)))),
            },
        }
    }
}

} // verus!

verus! {

/// Every state of the short operations waits for the work it announces.
pub proof fn lemma_account_flows_announce_awaited_work(
    logout: Logout,
    lookup: UserLookup,
    issue: AccessTokenIssue,
    auth: TokenAuthentication,
    reply: Reply,
)
    ensures
        logout.next(reply) matches Step::Continue(t, work) ==> work == t.awaiting(),
        lookup.next(reply) matches Step::Continue(t, work) ==> work == t.awaiting(),
        issue.next(reply) matches Step::Continue(t, work) ==> work == t.awaiting(),
        auth.next(reply) matches Step::Continue(t, work) ==> work == t.awaiting(),
{
}

/// An access token that does not check, or whose subject is not a user id,
/// is refused as unauthorized; a valid one leads to looking up the user it names.
pub proof fn lemma_bad_access_token_is_unauthorized(
    token: String,
    secret: String,
    message: String,
    subject: String,
)
    ensures
        (TokenAuthentication::Validating { token, secret }).next(Reply::Failed(message)) == Step::<
            TokenAuthentication,
            AuthenticationOutcome,
        >::Finish(Err(LoginError::Unauthorized)),
        uuid_from_text(subject@) is None ==> (TokenAuthentication::Validating {
            token,
            secret,
        }).next(Reply::Subject(subject)) == Step::<
            TokenAuthentication,
            AuthenticationOutcome,
        >::Finish(Err(LoginError::Unauthorized)),
        uuid_from_text(subject@) matches Some(user_id) ==> (TokenAuthentication::Validating {
            token,
            secret,
        }).next(Reply::Subject(subject)) == Step::<TokenAuthentication, AuthenticationOutcome>::Continue(
            TokenAuthentication::Finding { user_id },
            Action::FindUserById { user_id },
        ),
{
}

/// The user that a lookup by id returns is handed out as it is, and so is the
/// user that authenticating an access token finds.
pub proof fn lemma_found_user_is_handed_out_unchanged(user_id: u128, found: Option<User>)
    ensures
        (UserLookup::Finding { user_id }).next(Reply::User(found)) == Step::<
            UserLookup,
            Result<Option<User>, FindUserError>,
        >::Finish(Ok(found)),
        (TokenAuthentication::Finding { user_id }).next(Reply::User(found)) == Step::<
            TokenAuthentication,
            AuthenticationOutcome,
        >::Finish(Ok(found)),
{
}

/// A logout succeeds exactly when deleting the token was answered as
/// succeeded, and a signed access token is handed out exactly as the signing
/// produced it.
pub proof fn lemma_logout_and_signing_answers(
    token: String,
    user_id: u128,
    secret: String,
    reply: Reply,
    signed: String,
)
    ensures
        (Logout::Deleting { token }).next(reply) matches Step::Finish(Ok(_)) <==> reply == Reply::Done,
        (Logout::Deleting { token }).next(reply) is Finish,
        (AccessTokenIssue::Signing { user_id, secret }).next(Reply::Text(signed)) == Step::<
            AccessTokenIssue,
            Result<String, FindUserError>,
        >::Finish(Ok(signed)),
{
}

/// Authentication reads the secret, checks exactly the presented token with
/// that secret, and looks up exactly the id that the token's subject reads
/// as; an outside failure before or after the check is an internal error
/// carrying its message, a failed check is unauthorized.
pub proof fn lemma_authentication_steps(
    token: String,
    secret: String,
    user_id: u128,
    message: String,
)
    ensures
        (TokenAuthentication::ReadingSecret { token }).next(Reply::Text(secret)) == Step::<
            TokenAuthentication,
            AuthenticationOutcome,
        >::Continue(
            TokenAuthentication::Validating { token, secret },
            Action::ValidateAccessToken { token, secret },
        ),
        (TokenAuthentication::ReadingSecret { token }).next(Reply::Failed(message)) == Step::<
            TokenAuthentication,
            AuthenticationOutcome,
        >::Finish(Err(LoginError::Unknown(Fault::Outside(message)))),
        (TokenAuthentication::Finding { user_id }).next(Reply::Failed(message)) == Step::<
            TokenAuthentication,
            AuthenticationOutcome,
        >::Finish(Err(LoginError::Unknown(Fault::Outside(message)))),
        (UserLookup::Finding { user_id }).next(Reply::Failed(message)) == Step::<
            UserLookup,
            Result<Option<User>, FindUserError>,
        >::Finish(Err(FindUserError::Unknown(Fault::Outside(message)))),
{
}

/// Signing an access token reads the secret and signs for exactly the given
/// user with exactly that secret.
pub proof fn lemma_access_token_signed_for_the_user(user_id: u128, secret: String, message: String)
    ensures
        (AccessTokenIssue::ReadingSecret { user_id }).next(Reply::Text(secret)) == Step::<
            AccessTokenIssue,
            Result<String, FindUserError>,
        >::Continue(
            AccessTokenIssue::Signing { user_id, secret },
            Action::IssueAccessToken { user_id, secret },
        ),
        (AccessTokenIssue::Signing { user_id, secret }).next(Reply::Failed(message)) == Step::<
            AccessTokenIssue,
            Result<String, FindUserError>,
        >::Finish(Err(FindUserError::Unknown(Fault::Outside(message)))),
{
}

} // verus!

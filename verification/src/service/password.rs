//! Forgotten passwords: mailing a reset token valid for one hour, and
//! resetting the password with it.

use vstd::prelude::*;
use crate::fault::Fault;
use crate::models::password_reset_tokens::{
    ForgotPasswordError, ForgotPasswordRequest, PasswordResetToken, ResetPasswordError,
    ResetPasswordRequest,
};
use crate::models::user::User;
use crate::service::{fault_from, fault_of, Action, Reply, Step};
use crate::time::{plus_hours_spec, representable, SECS_PER_HOUR, Timestamp};

verus! {

/// How long a password-reset token stays valid, in hours.
pub const RESET_TOKEN_HOURS: i64 = 1;

pub type ForgotOutcome = Result<(), ForgotPasswordError>;

/// Where a forgot-password request stands. An address that belongs to no
/// user is answered with success too, so the answer does not tell which
/// addresses are registered.
#[derive(Clone, Debug, PartialEq, Eq)]
pub enum ForgotPassword {
    Finding { email: String },
    Generating { user: User },
    ReadingClock { user: User, token: String },
    Saving { user: User, token: String, expires_at: Timestamp },
    Notifying { user: User, token: String },
}

pub open spec fn forgot_failure(reply: Reply) -> Step<ForgotPassword, ForgotOutcome> {
    Step::Finish(Err(ForgotPasswordError::Unknown(fault_of(reply))))
}

fn forgot_fail(reply: Reply) -> (res: Step<ForgotPassword, ForgotOutcome>)
    ensures
        res == forgot_failure(reply),
{
    Step::Finish(Err(ForgotPasswordError::Unknown(fault_from(reply))))
}

impl ForgotPassword {
    /// Starts by looking up the e-mail address.
    pub fn start(req: ForgotPasswordRequest) -> (res: (ForgotPassword, Action))
        ensures
            res.0 == (ForgotPassword::Finding { email: req.email }),
            res.1 == res.0.awaiting(),
    {
        let s = ForgotPassword::Finding { email: req.email };
        let work = s.announce();
        (s, work)
    }

    pub open spec fn proceed(s: Self) -> Step<Self, ForgotOutcome> {
        Step::Continue(s, s.awaiting())
    }

    fn advance(s: Self) -> (res: Step<Self, ForgotOutcome>)
        ensures
            res == Self::proceed(s),
    {
        let work = s.announce();
        Step::Continue(s, work)
    }

    pub open spec fn awaiting(self) -> Action {
        match self {
            ForgotPassword::Finding { email } => Action::FindUserByEmail { email },
            ForgotPassword::Generating { .. } => Action::GenerateVerificationToken,
            ForgotPassword::ReadingClock { .. } => Action::ReadClock,
            ForgotPassword::Saving { user, token, expires_at } => Action::SavePasswordResetToken {
                user_id: user.id,
                token,
                expires_at,
            },
            ForgotPassword::Notifying { user, token } => Action::SendPasswordResetEmail {
                to_email: user.email,
                username: user.username,
                token,
            },
        }
    }

    pub open spec fn next(self, reply: Reply) -> Step<Self, ForgotOutcome> {
        match self {
            ForgotPassword::Finding { .. } => match reply {
                Reply::User(None) => Step::Finish(Ok(())),
                Reply::User(Some(user)) => Self::proceed(ForgotPassword::Generating { user }),
                other => forgot_failure(other),
            },
            ForgotPassword::Generating { user } => match reply {
                Reply::Text(token) => Self::proceed(ForgotPassword::ReadingClock { user, token }),
                other => forgot_failure(other),
            },
            ForgotPassword::ReadingClock { user, token } => match reply {
                Reply::Clock(now) => if representable(now.secs + RESET_TOKEN_HOURS * SECS_PER_HOUR) {
                    Self::proceed(
                        ForgotPassword::Saving {
                            user,
                            token,
                            expires_at: plus_hours_spec(now, RESET_TOKEN_HOURS as int),
                        },
                    )
                } else {
                    Step::Finish(Err(ForgotPasswordError::Unknown(Fault::ExpiryOutOfRange)))
                },
                other => forgot_failure(other),
            },
            ForgotPassword::Saving { user, token, .. } => match reply {
                Reply::Done => Self::proceed(ForgotPassword::Notifying { user, token }),
                other => forgot_failure(other),
            },
            ForgotPassword::Notifying { .. } => match reply {
                Reply::Done => Step::Finish(Ok(())),
                other => forgot_failure(other),
            },
        }
    }

    pub fn announce(&self) -> (work: Action)
        ensures
            work == self.awaiting(),
    {
        match self {
            ForgotPassword::Finding { email } => Action::FindUserByEmail { email: email.clone() },
            ForgotPassword::Generating { .. } => Action::GenerateVerificationToken,
            ForgotPassword::ReadingClock { .. } => Action::ReadClock,
            ForgotPassword::Saving { user, token, expires_at } => Action::SavePasswordResetToken {
                user_id: user.id,
                token: token.clone(),
                expires_at: *expires_at,
            },
            ForgotPassword::Notifying { user, token } => Action::SendPasswordResetEmail {
                to_email: user.email.clone(),
                username: user.username.clone(),
                token: token.clone(),
            },
        }
    }

    pub fn step(self, reply: Reply) -> (res: Step<Self, ForgotOutcome>)
        ensures
            res == self.next(reply),
    {
        match self {
            ForgotPassword::Finding { .. } => match reply {
                Reply::User(None) => Step::Finish(Ok(())),
                Reply::User(Some(user)) => Self::advance(ForgotPassword::Generating { user }),
                other => forgot_fail(other),
            },
            ForgotPassword::Generating { user } => match reply {
                Reply::Text(token) => Self::advance(ForgotPassword::ReadingClock { user, token }),
                other => forgot_fail(other),
            },
            ForgotPassword::ReadingClock { user, token } => match reply {
                Reply::Clock(now) => match now.checked_add_hours(RESET_TOKEN_HOURS) {
                    Some(expires_at) => Self::advance(
                        ForgotPassword::Saving { user, token, expires_at },
                    ),
                    None => Step::Finish(
                        Err(ForgotPasswordError::Unknown(Fault::ExpiryOutOfRange)),
                    ),
                },
                other => forgot_fail(other),
            },
            ForgotPassword::Saving { user, token, .. } => match reply {
                Reply::Done => Self::advance(ForgotPassword::Notifying { user, token }),
                other => forgot_fail(other),
            },
            ForgotPassword::Notifying { .. } => match reply {
                Reply::Done => Step::Finish(Ok(())),
                other => forgot_fail(other),
            },
        }
    }
}

pub type ResetOutcome = Result<(), ResetPasswordError>;

/// Where a password reset stands. An expired token is deleted and refused;
/// a valid one has the new password hashed and stored, and then every reset
/// token of that user is deleted.
#[derive(Clone, Debug, PartialEq, Eq)]
pub enum PasswordReset {
    Finding { token: String, new_password: String },
    CheckingExpiry { token: String, new_password: String, record: PasswordResetToken },
    DeletingExpired { token: String },
    Hashing { user_id: u128, new_password: String },
    Updating { user_id: u128, password_hash: String },
    Revoking { user_id: u128 },
}

pub open spec fn reset_failure(reply: Reply) -> Step<PasswordReset, ResetOutcome> {
    Step::Finish(Err(ResetPasswordError::Unknown(fault_of(reply))))
}

fn reset_fail(reply: Reply) -> (res: Step<PasswordReset, ResetOutcome>)
    ensures
        res == reset_failure(reply),
{
    Step::Finish(Err(ResetPasswordError::Unknown(fault_from(reply))))
}

impl PasswordReset {
    /// Starts by looking the token up.
    pub fn start(req: ResetPasswordRequest) -> (res: (PasswordReset, Action))
        ensures
            res.0 == (PasswordReset::Finding { token: req.token, new_password: req.new_password }),
            res.1 == res.0.awaiting(),
    {
        let s = PasswordReset::Finding { token: req.token, new_password: req.new_password };
        let work = s.announce();
        (s, work)
    }

    pub open spec fn proceed(s: Self) -> Step<Self, ResetOutcome> {
        Step::Continue(s, s.awaiting())
    }

    fn advance(s: Self) -> (res: Step<Self, ResetOutcome>)
        ensures
            res == Self::proceed(s),
    {
        let work = s.announce();
        Step::Continue(s, work)
    }

    pub open spec fn awaiting(self) -> Action {
        match self {
            PasswordReset::Finding { token, .. } => Action::FindPasswordResetToken { token },
            PasswordReset::CheckingExpiry { .. } => Action::ReadClock,
            PasswordReset::DeletingExpired { token } => Action::DeletePasswordResetToken { token },
            PasswordReset::Hashing { new_password, .. } => Action::HashPassword {
                password: new_password,
            },
            PasswordReset::Updating { user_id, password_hash } => Action::UpdatePassword {
                user_id,
                password_hash,
            },
            PasswordReset::Revoking { user_id } => Action::DeleteAllPasswordResetTokens { user_id },
        }
    }

    pub open spec fn next(self, reply: Reply) -> Step<Self, ResetOutcome> {
        match self {
            PasswordReset::Finding { token, new_password } => match reply {
                Reply::ResetToken(None) => Step::Finish(Err(ResetPasswordError::TokenNotFound)),
                Reply::ResetToken(Some(record)) => Self::proceed(
                    PasswordReset::CheckingExpiry { token, new_password, record },
                ),
                other => reset_failure(other),
            },
            PasswordReset::CheckingExpiry { token, new_password, record } => match reply {
                Reply::Clock(now) => if record.expired_at(now) {
                    Self::proceed(PasswordReset::DeletingExpired { token })
                } else {
                    Self::proceed(PasswordReset::Hashing { user_id: record.user_id, new_password })
                },
                other => reset_failure(other),
            },
            PasswordReset::DeletingExpired { .. } => match reply {
                Reply::Done => Step::Finish(Err(ResetPasswordError::TokenIsExpired)),
                other => reset_failure(other),
            },
            PasswordReset::Hashing { user_id, .. } => match reply {
                Reply::Text(password_hash) => Self::proceed(
                    PasswordReset::Updating { user_id, password_hash },
                ),
                other => reset_failure(other),
            },
            PasswordReset::Updating { user_id, .. } => match reply {
                Reply::Done => Self::proceed(PasswordReset::Revoking { user_id }),
                other => reset_failure(other),
            },
            PasswordReset::Revoking { .. } => match reply {
                Reply::Done => Step::Finish(Ok(())),
                other => reset_failure(other),
            },
        }
    }

    pub fn announce(&self) -> (work: Action)
        ensures
            work == self.awaiting(),
    {
        match self {
            PasswordReset::Finding { token, .. } => Action::FindPasswordResetToken {
                token: token.clone(),
            },
            PasswordReset::CheckingExpiry { .. } => Action::ReadClock,
            PasswordReset::DeletingExpired { token } => Action::DeletePasswordResetToken {
                token: token.clone(),
            },
            PasswordReset::Hashing { new_password, .. } => Action::HashPassword {
                password: new_password.clone(),
            },
            PasswordReset::Updating { user_id, password_hash } => Action::UpdatePassword {
                user_id: *user_id,
                password_hash: password_hash.clone(),
            },
            PasswordReset::Revoking { user_id } => Action::DeleteAllPasswordResetTokens {
                user_id: *user_id,
            },
        }
    }

    pub fn step(self, reply: Reply) -> (res: Step<Self, ResetOutcome>)
        ensures
            res == self.next(reply),
    {
        match self {
            PasswordReset::Finding { token, new_password } => match reply {
                Reply::ResetToken(None) => Step::Finish(Err(ResetPasswordError::TokenNotFound)),
                Reply::ResetToken(Some(record)) => Self::advance(
                    PasswordReset::CheckingExpiry { token, new_password, record },
                ),
                other => reset_fail(other),
            },
            PasswordReset::CheckingExpiry { token, new_password, record } => match reply {
                Reply::Clock(now) => if record.is_expired_at(now) {
                    Self::advance(PasswordReset::DeletingExpired { token })
                } else {
                    Self::advance(PasswordReset::Hashing { user_id: record.user_id, new_password })
                },
                other => reset_fail(other),
            },
            PasswordReset::DeletingExpired { .. } => match reply {
                Reply::Done => Step::Finish(Err(ResetPasswordError::TokenIsExpired)),
                other => reset_fail(other),
            },
            PasswordReset::Hashing { user_id, .. } => match reply {
                Reply::Text(password_hash) => Self::advance(
                    PasswordReset::Updating { user_id, password_hash },
                ),
                other => reset_fail(other),
            },
            PasswordReset::Updating { user_id, .. } => match reply {
                Reply::Done => Self::advance(PasswordReset::Revoking { user_id }),
                other => reset_fail(other),
            },
            PasswordReset::Revoking { .. } => match reply {
                Reply::Done => Step::Finish(Ok(())),
                other => reset_fail(other),
            },
        }
    }
}

} // verus!

verus! {

impl ForgotPassword {
    /// The outcome from this state when the outside work is answered by
    /// `replies` in turn: `None` while it is still waiting.
    pub open spec fn run(self, replies: Seq<Reply>) -> Option<ForgotOutcome>
        decreases replies.len(),
    {
        if replies.len() == 0 {
            None
        } else {
            match self.next(replies[0]) {
                Step::Finish(outcome) => Some(outcome),
                Step::Continue(s, _) => s.run(replies.drop_first()),
            }
        }
    }

    /// The outside work answered along that run, in order.
    pub open spec fn performed(self, replies: Seq<Reply>) -> Seq<Action>
        decreases replies.len(),
    {
        if replies.len() == 0 {
            Seq::empty()
        } else {
            match self.next(replies[0]) {
                Step::Finish(_) => seq![self.awaiting()],
                Step::Continue(s, _) => seq![self.awaiting()] + s.performed(replies.drop_first()),
            }
        }
    }
}

impl PasswordReset {
    /// The outcome from this state when the outside work is answered by
    /// `replies` in turn: `None` while it is still waiting.
    pub open spec fn run(self, replies: Seq<Reply>) -> Option<ResetOutcome>
        decreases replies.len(),
    {
        if replies.len() == 0 {
            None
        } else {
            match self.next(replies[0]) {
                Step::Finish(outcome) => Some(outcome),
                Step::Continue(s, _) => s.run(replies.drop_first()),
            }
        }
    }

    /// The outside work answered along that run, in order.
    pub open spec fn performed(self, replies: Seq<Reply>) -> Seq<Action>
        decreases replies.len(),
    {
        if replies.len() == 0 {
            Seq::empty()
        } else {
            match self.next(replies[0]) {
                Step::Finish(_) => seq![self.awaiting()],
                Step::Continue(s, _) => seq![self.awaiting()] + s.performed(replies.drop_first()),
            }
        }
    }
}

/// Every state that a forgot-password request moves to waits for the work it announces.
pub proof fn lemma_forgot_announces_awaited_work(s: ForgotPassword, reply: Reply)
    ensures
        s.next(reply) matches Step::Continue(t, work) ==> work == t.awaiting(),
{
}

/// Every state that a password reset moves to waits for the work it announces.
pub proof fn lemma_reset_announces_awaited_work(s: PasswordReset, reply: Reply)
    ensures
        s.next(reply) matches Step::Continue(t, work) ==> work == t.awaiting(),
{
}

/// An address that belongs to no user is answered with success, with no
/// further work, exactly as a registered one is once its mail is sent.
pub proof fn lemma_unknown_address_gets_success(email: String)
    ensures
        (ForgotPassword::Finding { email }).next(Reply::User(None)) == Step::<
            ForgotPassword,
            ForgotOutcome,
        >::Finish(Ok(())),
        forall|user: User, token: String|
            (#[trigger] (ForgotPassword::Notifying { user, token }).next(Reply::Done)) == Step::<
                ForgotPassword,
                ForgotOutcome,
            >::Finish(Ok(())),
{
}

/// A reset token is stored to expire one hour after the clock reading, and
/// has not expired at that reading.
pub proof fn lemma_reset_token_lasts_one_hour(user: User, token: String, now: Timestamp)
    requires
        representable(now.secs + SECS_PER_HOUR),
    ensures
        (ForgotPassword::ReadingClock { user, token }).next(Reply::Clock(now)) == Step::<
            ForgotPassword,
            ForgotOutcome,
        >::Continue(
            ForgotPassword::Saving { user, token, expires_at: plus_hours_spec(now, 1) },
            Action::SavePasswordResetToken {
                user_id: user.id,
                token,
                expires_at: plus_hours_spec(now, 1),
            },
        ),
        !crate::time::later_than(now, plus_hours_spec(now, 1)),
{
    crate::time::lemma_fresh_expiry_not_passed(now, 1);
}

/// A forgot-password request for `email` succeeds either at once, when the
/// lookup found no user with the address, or after drawing a token, storing
/// it for the user found to expire one hour after the clock reading, the
/// store answering that it succeeded, and mailing that same token to the
/// user's address, the mailer answering that it succeeded; and nothing else.
pub proof fn lemma_forgot_password_mails_the_stored_token(email: String, replies: Seq<Reply>)
    ensures
        (ForgotPassword::Finding { email }).run(replies) matches Some(Ok(_)) ==> {
            ||| replies[0] == Reply::User(None) && (ForgotPassword::Finding { email }).performed(
                replies,
            ) == seq![Action::FindUserByEmail { email }]
            ||| exists|user: User, token: String, now: Timestamp|
                {
                    &&& replies[0] == Reply::User(Some(user))
                    &&& replies[1] == Reply::Text(token)
                    &&& replies[2] == Reply::Clock(now)
                    &&& replies[3] == Reply::Done
                    &&& replies[4] == Reply::Done
                    &&& (ForgotPassword::Finding { email }).performed(replies) == seq![
                        Action::FindUserByEmail { email },
                        Action::GenerateVerificationToken,
                        Action::ReadClock,
                        Action::SavePasswordResetToken {
                            user_id: user.id,
                            token,
                            expires_at: plus_hours_spec(now, 1),
                        },
                        Action::SendPasswordResetEmail {
                            to_email: user.email,
                            username: user.username,
                            token,
                        },
                    ]
                }
        },
{
    let s0 = ForgotPassword::Finding { email };
    if s0.run(replies) matches Some(Ok(_)) {
        let r1 = replies.drop_first();
        match s0.next(replies[0]) {
            Step::Finish(_) => {
                assert(s0.performed(replies) =~= seq![Action::FindUserByEmail { email }]);
            },
            Step::Continue(s1, _) => {
                assert(s0.run(replies) == s1.run(r1));
                let r2 = r1.drop_first();
                if let Step::Continue(s2, _) = s1.next(r1[0]) {
                    assert(s1.run(r1) == s2.run(r2));
                    let r3 = r2.drop_first();
                    if let Step::Continue(s3, _) = s2.next(r2[0]) {
                        assert(s2.run(r2) == s3.run(r3));
                        let r4 = r3.drop_first();
                        if let Step::Continue(s4, _) = s3.next(r3[0]) {
                            assert(s3.run(r3) == s4.run(r4));
                            let user = s3->Saving_user;
                            let token = s3->Saving_token;
                            let expires_at = s3->expires_at;
                            assert(r1[0] == replies[1]);
                            assert(r2[0] == replies[2]);
                            assert(r3[0] == replies[3]);
                            assert(r3.drop_first()[0] == replies[4]);
                            assert(s4.run(r4) == s0.run(replies));
                            assert(s4.performed(r4) == seq![s4.awaiting()]);
                            assert(s3.performed(r3) == seq![s3.awaiting()] + s4.performed(r4));
                            assert(s2.performed(r2) == seq![s2.awaiting()] + s3.performed(r3));
                            assert(s1.performed(r1) == seq![s1.awaiting()] + s2.performed(r2));
                            assert(s0.performed(replies) == seq![s0.awaiting()] + s1.performed(
                                r1,
                            ));
                            assert(s0.performed(replies) =~= seq![
                                Action::FindUserByEmail { email },
                                Action::GenerateVerificationToken,
                                Action::ReadClock,
                                Action::SavePasswordResetToken {
                                    user_id: user.id,
                                    token,
                                    expires_at,
                                },
                                Action::SendPasswordResetEmail {
                                    to_email: user.email,
                                    username: user.username,
                                    token,
                                },
                            ]);
                        }
                    }
                }
            },
        }
    }
}

/// An expired reset token is deleted, and then the reset is refused as expired.
pub proof fn lemma_expired_reset_token_is_deleted(
    token: String,
    new_password: String,
    record: PasswordResetToken,
    now: Timestamp,
)
    requires
        record.expired_at(now),
    ensures
        (PasswordReset::CheckingExpiry { token, new_password, record }).next(Reply::Clock(now))
            == Step::<PasswordReset, ResetOutcome>::Continue(
            PasswordReset::DeletingExpired { token },
            Action::DeletePasswordResetToken { token },
        ),
        (PasswordReset::DeletingExpired { token }).next(Reply::Done) == Step::<
            PasswordReset,
            ResetOutcome,
        >::Finish(Err(ResetPasswordError::TokenIsExpired)),
{
}

/// A reset with `token` and `new_password` succeeds only when the stored
/// token had not expired at the clock reading, and only by looking the token
/// up, reading the clock, hashing the new password, storing the hash that the
/// hashing returned for the token's owner (the store answering that it
/// succeeded) and deleting every reset token of that same owner (answered
/// the same way), in this order and nothing else.
pub proof fn lemma_reset_stores_hash_and_revokes_tokens(
    token: String,
    new_password: String,
    replies: Seq<Reply>,
)
    ensures
        (PasswordReset::Finding { token, new_password }).run(replies) matches Some(Ok(_)) ==> exists|
            record: PasswordResetToken,
            now: Timestamp,
        |
            {
                &&& replies[0] == Reply::ResetToken(Some(record))
                &&& replies[1] == Reply::Clock(now)
                &&& !record.expired_at(now)
                &&& replies[2] is Text
                &&& replies[3] == Reply::Done
                &&& replies[4] == Reply::Done
                &&& (PasswordReset::Finding { token, new_password }).performed(replies) == seq![
                    Action::FindPasswordResetToken { token },
                    Action::ReadClock,
                    Action::HashPassword { password: new_password },
                    Action::UpdatePassword {
                        user_id: record.user_id,
                        password_hash: replies[2]->Text_0,
                    },
                    Action::DeleteAllPasswordResetTokens { user_id: record.user_id },
                ]
            },
{
    let s0 = PasswordReset::Finding { token, new_password };
    if s0.run(replies) matches Some(Ok(_)) {
        let r1 = replies.drop_first();
        if let Step::Continue(s1, _) = s0.next(replies[0]) {
            assert(s0.run(replies) == s1.run(r1));
            let record = s1->record;
            let r2 = r1.drop_first();
            if let Step::Continue(s2, _) = s1.next(r1[0]) {
                assert(s1.run(r1) == s2.run(r2));
                let now = r1[0]->Clock_0;
                assert(replies[1] == r1[0]);
                let r3 = r2.drop_first();
                if let Step::Continue(s3, _) = s2.next(r2[0]) {
                    assert(s2.run(r2) == s3.run(r3));
                    assert(replies[2] == r2[0]);
                    assert(!record.expired_at(now));
                    let r4 = r3.drop_first();
                    if let Step::Continue(s4, _) = s3.next(r3[0]) {
                        assert(s3.run(r3) == s4.run(r4));
                        assert(r3[0] == replies[3]);
                        assert(r4[0] == replies[4]);
                        assert(s4.performed(r4) == seq![s4.awaiting()]);
                        assert(s3.performed(r3) == seq![s3.awaiting()] + s4.performed(r4));
                        assert(s2.performed(r2) == seq![s2.awaiting()] + s3.performed(r3));
                        assert(s1.performed(r1) == seq![s1.awaiting()] + s2.performed(r2));
                        assert(s0.performed(replies) == seq![s0.awaiting()] + s1.performed(r1));
                        assert(s0.performed(replies) =~= seq![
                            Action::FindPasswordResetToken { token },
                            Action::ReadClock,
                            Action::HashPassword { password: new_password },
                            Action::UpdatePassword {
                                user_id: record.user_id,
                                password_hash: replies[2]->Text_0,
                            },
                            Action::DeleteAllPasswordResetTokens { user_id: record.user_id },
                        ]);
                    }
                }
            }
        }
    }
}

/// When storing the new password hash fails, or is answered with anything but
/// success, the reset fails with an internal error and no reset token is
/// deleted; likewise when deleting the tokens fails.
pub proof fn lemma_reset_fails_when_the_update_fails(
    user_id: u128,
    password_hash: String,
    reply: Reply,
)
    requires
        reply != Reply::Done,
    ensures
        (PasswordReset::Updating { user_id, password_hash }).next(reply) matches Step::Finish(
            Err(ResetPasswordError::Unknown(_)),
        ),
        (PasswordReset::Revoking { user_id }).next(reply) matches Step::Finish(
            Err(ResetPasswordError::Unknown(_)),
        ),
{
}

/// When storing the reset token fails, or is answered with anything but
/// success, the request fails with an internal error and nothing is mailed.
pub proof fn lemma_forgot_fails_when_the_token_is_not_stored(
    user: User,
    token: String,
    expires_at: Timestamp,
    reply: Reply,
)
    requires
        reply != Reply::Done,
    ensures
        (ForgotPassword::Saving { user, token, expires_at }).next(reply) matches Step::Finish(
            Err(ForgotPasswordError::Unknown(_)),
        ),
{
}

/// An outside failure, whatever state it comes in, ends a forgot-password
/// request or a reset with an internal error that carries the failure's
/// message; a reset token that is not stored is refused as not found.
pub proof fn lemma_password_flows_report_failures(
    forgot: ForgotPassword,
    reset: PasswordReset,
    message: String,
    token: String,
    new_password: String,
)
    ensures
        forgot.next(Reply::Failed(message)) == Step::<ForgotPassword, ForgotOutcome>::Finish(
            Err(ForgotPasswordError::Unknown(Fault::Outside(message))),
        ),
        reset.next(Reply::Failed(message)) == Step::<PasswordReset, ResetOutcome>::Finish(
            Err(ResetPasswordError::Unknown(Fault::Outside(message))),
        ),
        (PasswordReset::Finding { token, new_password }).next(Reply::ResetToken(None)) == Step::<
            PasswordReset,
            ResetOutcome,
        >::Finish(Err(ResetPasswordError::TokenNotFound)),
{
}

} // verus!

//! Verifying an e-mail address with the token from the verification mail.
//! An expired token is deleted and refused; a valid one marks the address
//! verified and is then deleted, so it works once.

use vstd::prelude::*;
use crate::models::email_verification_token::EmailVerificationToken;
use crate::models::user::{VerifyEmailError, VerifyEmailRequest};
use crate::service::{fault_from, fault_of, Action, Reply, Step};
use crate::time::Timestamp;

verus! {

pub type VerificationOutcome = Result<(), VerifyEmailError>;

/// Where an e-mail verification stands.
#[derive(Clone, Debug, PartialEq, Eq)]
pub enum EmailVerification {
    Finding { token: String },
    CheckingExpiry { token: String, record: EmailVerificationToken },
    DeletingExpired { token: String },
    MarkingVerified { token: String, user_id: u128 },
    DeletingUsed { token: String },
}

pub open spec fn verification_failure(reply: Reply) -> Step<EmailVerification, VerificationOutcome> {
    Step::Finish(Err(VerifyEmailError::Unknown(fault_of(reply))))
}

fn fail(reply: Reply) -> (res: Step<EmailVerification, VerificationOutcome>)
    ensures
        res == verification_failure(reply),
{
    Step::Finish(Err(VerifyEmailError::Unknown(fault_from(reply))))
}

impl EmailVerification {
    /// Starts a verification by looking the token up.
    pub fn start(req: &VerifyEmailRequest) -> (res: (EmailVerification, Action))
        ensures
            res.0 == (EmailVerification::Finding { token: *req.token }),
            res.1 == res.0.awaiting(),
    {
        let s = EmailVerification::Finding { token: req.token.clone() };
        let work = s.announce();
        (s, work)
    }

    pub open spec fn proceed(s: Self) -> Step<Self, VerificationOutcome> {
        Step::Continue(s, s.awaiting())
    }

    fn advance(s: Self) -> (res: Step<Self, VerificationOutcome>)
        ensures
            res == Self::proceed(s),
    {
        let work = s.announce();
        Step::Continue(s, work)
    }

    pub open spec fn awaiting(self) -> Action {
        match self {
            EmailVerification::Finding { token } => Action::FindEmailVerificationToken { token },
            EmailVerification::CheckingExpiry { .. } => Action::ReadClock,
            EmailVerification::DeletingExpired { token } =>
                Action::DeleteEmailVerificationToken { token },
            EmailVerification::MarkingVerified { user_id, .. } =>
                Action::MarkEmailVerified { user_id },
            EmailVerification::DeletingUsed { token } =>
                Action::DeleteEmailVerificationToken { token },
        }
    }

    pub open spec fn next(self, reply: Reply) -> Step<Self, VerificationOutcome> {
        match self {
            EmailVerification::Finding { token } => match reply {
                Reply::EmailToken(None) => Step::Finish(Err(VerifyEmailError::NotFound)),
                Reply::EmailToken(Some(record)) => Self::proceed(
                    EmailVerification::CheckingExpiry { token, record },
                ),
                other => verification_failure(other),
            },
            EmailVerification::CheckingExpiry { token, record } => match reply {
                Reply::Clock(now) => if record.expired_at(now) {
                    Self::proceed(EmailVerification::DeletingExpired { token })
                } else {
                    Self::proceed(
                        EmailVerification::MarkingVerified { token, user_id: record.user_id },
                    )
                },
                other => verification_failure(other),
            },
            EmailVerification::DeletingExpired { .. } => match reply {
                Reply::Done => Step::Finish(Err(VerifyEmailError::IsExpired)),
                other => verification_failure(other),
            },
            EmailVerification::MarkingVerified { token, .. } => match reply {
                Reply::Done => Self::proceed(EmailVerification::DeletingUsed { token }),
                other => verification_failure(other),
            },
            EmailVerification::DeletingUsed { .. } => match reply {
                Reply::Done => Step::Finish(Ok(())),
                other => verification_failure(other),
            },
        }
    }

    pub fn announce(&self) -> (work: Action)
        ensures
            work == self.awaiting(),
    {
        match self {
            EmailVerification::Finding { token } => Action::FindEmailVerificationToken {
                token: token.clone(),
            },
            EmailVerification::CheckingExpiry { .. } => Action::ReadClock,
            EmailVerification::DeletingExpired { token } =>
                Action::DeleteEmailVerificationToken { token: token.clone() },
            EmailVerification::MarkingVerified { user_id, .. } =>
                Action::MarkEmailVerified { user_id: *user_id },
            EmailVerification::DeletingUsed { token } =>
                Action::DeleteEmailVerificationToken { token: token.clone() },
        }
    }

    pub fn step(self, reply: Reply) -> (res: Step<Self, VerificationOutcome>)
        ensures
            res == self.next(reply),
    {
        match self {
            EmailVerification::Finding { token } => match reply {
                Reply::EmailToken(None) => Step::Finish(Err(VerifyEmailError::NotFound)),
                Reply::EmailToken(Some(record)) => Self::advance(
                    EmailVerification::CheckingExpiry { token, record },
                ),
                other => fail(other),
            },
            EmailVerification::CheckingExpiry { token, record } => match reply {
                Reply::Clock(now) => if record.is_expired_at(now) {
                    Self::advance(EmailVerification::DeletingExpired { token })
                } else {
                    Self::advance(
                        EmailVerification::MarkingVerified { token, user_id: record.user_id },
                    )
                },
                other => fail(other),
            },
            EmailVerification::DeletingExpired { .. } => match reply {
                Reply::Done => Step::Finish(Err(VerifyEmailError::IsExpired)),
                other => fail(other),
            },
            EmailVerification::MarkingVerified { token, .. } => match reply {
                Reply::Done => Self::advance(EmailVerification::DeletingUsed { token }),
                other => fail(other),
            },
            EmailVerification::DeletingUsed { .. } => match reply {
                Reply::Done => Step::Finish(Ok(())),
                other => fail(other),
            },
        }
    }
}

} // verus!

verus! {

impl EmailVerification {
    /// The outcome from this state when the outside work is answered by
    /// `replies` in turn: `None` while it is still waiting.
    pub open spec fn run(self, replies: Seq<Reply>) -> Option<VerificationOutcome>
        decreases replies.len(),
    {
        if replies.len() == 0 {
            None
        } else {
            match self.next(replies[0]) {
                Step::Finish(outcome) => Some(outcome),
                Step::Continue(s, _) => s.run(replies.drop_first()),
            }
        }
    }

    /// The outside work answered along that run, in order.
    pub open spec fn performed(self, replies: Seq<Reply>) -> Seq<Action>
        decreases replies.len(),
    {
        if replies.len() == 0 {
            Seq::empty()
        } else {
            match self.next(replies[0]) {
                Step::Finish(_) => seq![self.awaiting()],
                Step::Continue(s, _) => seq![self.awaiting()] + s.performed(replies.drop_first()),
            }
        }
    }
}

/// Every state that a verification moves to waits for the work it announces.
pub proof fn lemma_verification_announces_awaited_work(s: EmailVerification, reply: Reply)
    ensures
        s.next(reply) matches Step::Continue(t, work) ==> work == t.awaiting(),
{
}

/// An expired token is deleted, and then the verification is refused as expired.
pub proof fn lemma_expired_verification_token_is_deleted(
    token: String,
    record: EmailVerificationToken,
    now: Timestamp,
)
    requires
        record.expired_at(now),
    ensures
        (EmailVerification::CheckingExpiry { token, record }).next(Reply::Clock(now)) == Step::<
            EmailVerification,
            VerificationOutcome,
        >::Continue(
            EmailVerification::DeletingExpired { token },
            Action::DeleteEmailVerificationToken { token },
        ),
        (EmailVerification::DeletingExpired { token }).next(Reply::Done) == Step::<
            EmailVerification,
            VerificationOutcome,
        >::Finish(Err(VerifyEmailError::IsExpired)),
{
}

/// A verification of `token` succeeds only when the stored token had not
/// expired at the clock reading, and only by looking the token up, reading
/// the clock, marking the address of the token's owner verified (answered as
/// succeeded) and deleting the token (answered as succeeded), in that order
/// and with nothing else: a token verifies once.
pub proof fn lemma_verification_marks_then_deletes(token: String, replies: Seq<Reply>)
    ensures
        (EmailVerification::Finding { token }).run(replies) matches Some(Ok(_)) ==> exists|
            record: EmailVerificationToken,
            now: Timestamp,
        |
            {
                &&& replies[0] == Reply::EmailToken(Some(record))
                &&& replies[1] == Reply::Clock(now)
                &&& !record.expired_at(now)
                &&& replies[2] == Reply::Done
                &&& replies[3] == Reply::Done
                &&& (EmailVerification::Finding { token }).performed(replies) == seq![
                    Action::FindEmailVerificationToken { token },
                    Action::ReadClock,
                    Action::MarkEmailVerified { user_id: record.user_id },
                    Action::DeleteEmailVerificationToken { token },
                ]
            },
{
    let s0 = EmailVerification::Finding { token };
    if s0.run(replies) matches Some(Ok(_)) {
        let r1 = replies.drop_first();
        if let Step::Continue(s1, _) = s0.next(replies[0]) {
            assert(s0.run(replies) == s1.run(r1));
            let record = s1->record;
            let r2 = r1.drop_first();
            if let Step::Continue(s2, _) = s1.next(r1[0]) {
                assert(s1.run(r1) == s2.run(r2));
                let now = r1[0]->Clock_0;
                assert(replies[1] == r1[0]);
                let r3 = r2.drop_first();
                if let Step::Continue(s3, _) = s2.next(r2[0]) {
                    assert(s2.run(r2) == s3.run(r3));
                    assert(!record.expired_at(now));
                    assert(r2[0] == replies[2]);
                    assert(r3[0] == replies[3]);
                    assert(s3.run(r3) == s0.run(replies));
                    assert(s3.performed(r3) == seq![s3.awaiting()]);
                    assert(s2.performed(r2) == seq![s2.awaiting()] + s3.performed(r3));
                    assert(s1.performed(r1) == seq![s1.awaiting()] + s2.performed(r2));
                    assert(s0.performed(replies) == seq![s0.awaiting()] + s1.performed(r1));
                    assert(s0.performed(replies) =~= seq![
                        Action::FindEmailVerificationToken { token },
                        Action::ReadClock,
                        Action::MarkEmailVerified { user_id: record.user_id },
                        Action::DeleteEmailVerificationToken { token },
                    ]);
                }
            }
        }
    }
}

/// When marking the address verified fails, or is answered with anything but
/// success, the verification fails with an internal error and the token is
/// not deleted, so the link still works.
pub proof fn lemma_verification_fails_when_marking_fails(token: String, user_id: u128, reply: Reply)
    requires
        reply != Reply::Done,
    ensures
        (EmailVerification::MarkingVerified { token, user_id }).next(reply) matches Step::Finish(
            Err(VerifyEmailError::Unknown(_)),
        ),
{
}

/// An outside failure, whatever state it comes in, ends the verification
/// with an internal error that carries the failure's message; a token that
/// is not stored is refused as not found.
pub proof fn lemma_verification_failures(s: EmailVerification, message: String, token: String)
    ensures
        s.next(Reply::Failed(message)) == Step::<EmailVerification, VerificationOutcome>::Finish(
            Err(VerifyEmailError::Unknown(crate::fault::Fault::Outside(message))),
        ),
        (EmailVerification::Finding { token }).next(Reply::EmailToken(None)) == Step::<
            EmailVerification,
            VerificationOutcome,
        >::Finish(Err(VerifyEmailError::NotFound)),
{
}

} // verus!

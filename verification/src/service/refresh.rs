//! Exchanging a refresh token for a new access token and a new refresh token.
//!
//! An unknown token is refused. An expired one is deleted and refused. A
//! token that was already used means it was probably stolen: every refresh
//! token of its owner is deleted, the owner is warned by mail, and the
//! request is refused. A valid token is marked used, a new refresh token is
//! stored, and a new access token is signed.

use vstd::prelude::*;
use crate::fault::Fault;
use crate::models::refresh_token::{RefreshToken, RefreshTokenError, RefreshTokenRequest};
use crate::service::{fault_from, fault_of, Action, Reply, Step};
use crate::time::Timestamp;
use crate::models::user::User;

verus! {

/// The new access token and the new refresh token.
pub type RefreshOutcome = Result<(String, String), RefreshTokenError>;

/// Where a refresh stands.
#[derive(Clone, Debug, PartialEq, Eq)]
pub enum TokenRefresh {
    Finding { token: String },
    CheckingExpiry { token: String, record: RefreshToken },
    DeletingExpired { token: String },
    Revoking { user_id: u128 },
    LoadingOwner { user_id: u128 },
    Alerting { email: String, username: String },
    Marking { token: String, user_id: u128 },
    GeneratingNew { user_id: u128 },
    SavingNew { user_id: u128, refresh_token: String },
    ReadingSecret { user_id: u128, refresh_token: String },
    Signing { user_id: u128, secret: String, refresh_token: String },
}

pub open spec fn refresh_failure(reply: Reply) -> Step<TokenRefresh, RefreshOutcome> {
    Step::Finish(Err(RefreshTokenError::Unknown(fault_of(reply))))
}

fn fail(reply: Reply) -> (res: Step<TokenRefresh, RefreshOutcome>)
    ensures
        res == refresh_failure(reply),
{
    Step::Finish(Err(RefreshTokenError::Unknown(fault_from(reply))))
}

impl TokenRefresh {
    /// Starts by looking the presented token up.
    pub fn start(req: RefreshTokenRequest) -> (res: (TokenRefresh, Action))
        ensures
            res.0 == (TokenRefresh::Finding { token: req.refresh_token }),
            res.1 == res.0.awaiting(),
    {
        let s = TokenRefresh::Finding { token: req.refresh_token };
        let work = s.announce();
        (s, work)
    }

    pub open spec fn proceed(s: Self) -> Step<Self, RefreshOutcome> {
        Step::Continue(s, s.awaiting())
    }

    fn advance(s: Self) -> (res: Step<Self, RefreshOutcome>)
        ensures
            res == Self::proceed(s),
    {
        let work = s.announce();
        Step::Continue(s, work)
    }

    pub open spec fn awaiting(self) -> Action {
        match self {
            TokenRefresh::Finding { token } => Action::FindRefreshToken { token },
            TokenRefresh::CheckingExpiry { .. } => Action::ReadClock,
            TokenRefresh::DeletingExpired { token } => Action::DeleteRefreshToken { token },
            TokenRefresh::Revoking { user_id } => Action::DeleteAllRefreshTokens { user_id },
            TokenRefresh::LoadingOwner { user_id } => Action::FindUserById { user_id },
            TokenRefresh::Alerting { email, username } => Action::SendSecurityAlert {
                to_email: email,
                username,
            },
            TokenRefresh::Marking { token, .. } => Action::MarkRefreshTokenUsed { token },
            TokenRefresh::GeneratingNew { .. } => Action::GenerateRefreshToken,
            TokenRefresh::SavingNew { user_id, refresh_token } => Action::SaveRefreshToken {
                user_id,
                token: refresh_token,
            },
            TokenRefresh::ReadingSecret { .. } => Action::ReadJwtSecret,
            TokenRefresh::Signing { user_id, secret, .. } => Action::IssueAccessToken {
                user_id,
                secret,
            },
        }
    }

    pub open spec fn next(self, reply: Reply) -> Step<Self, RefreshOutcome> {
        match self {
            TokenRefresh::Finding { token } => match reply {
                Reply::RefreshTokenRecord(None) => Step::Finish(
                    Err(RefreshTokenError::Unauthorized),
                ),
                Reply::RefreshTokenRecord(Some(record)) => Self::proceed(
                    TokenRefresh::CheckingExpiry { token, record },
                ),
                other => refresh_failure(other),
            },
            TokenRefresh::CheckingExpiry { token, record } => match reply {
                Reply::Clock(now) => if record.expired_at(now) {
                    Self::proceed(TokenRefresh::DeletingExpired { token })
                } else if record.is_used {
                    Self::proceed(TokenRefresh::Revoking { user_id: record.user_id })
                } else {
                    Self::proceed(TokenRefresh::Marking { token, user_id: record.user_id })
                },
                other => refresh_failure(other),
            },
            TokenRefresh::DeletingExpired { .. } => Step::Finish(
                Err(RefreshTokenError::Unauthorized),
            ),
            TokenRefresh::Revoking { user_id } => match reply {
                Reply::Done => Self::proceed(TokenRefresh::LoadingOwner { user_id }),
                other => refresh_failure(other),
            },
            TokenRefresh::LoadingOwner { user_id } => match reply {
                Reply::User(Some(owner)) => Self::proceed(
                    TokenRefresh::Alerting { email: owner.email, username: owner.username },
                ),
                Reply::User(None) => Step::Finish(
                    Err(RefreshTokenError::Unknown(Fault::MissingUser(user_id))),
                ),
                other => refresh_failure(other),
            },
            TokenRefresh::Alerting { .. } => Step::Finish(Err(RefreshTokenError::Unauthorized)),
            TokenRefresh::Marking { user_id, .. } => match reply {
                Reply::Done => Self::proceed(TokenRefresh::GeneratingNew { user_id }),
                other => refresh_failure(other),
            },
            TokenRefresh::GeneratingNew { user_id } => match reply {
                Reply::Text(refresh_token) => Self::proceed(
                    TokenRefresh::SavingNew { user_id, refresh_token },
                ),
                other => refresh_failure(other),
            },
            TokenRefresh::SavingNew { user_id, refresh_token } => match reply {
                Reply::Done => Self::proceed(TokenRefresh::ReadingSecret { user_id, refresh_token }),
                other => refresh_failure(other),
            },
            TokenRefresh::ReadingSecret { user_id, refresh_token } => match reply {
                Reply::Text(secret) => Self::proceed(
                    TokenRefresh::Signing { user_id, secret, refresh_token },
                ),
                other => refresh_failure(other),
            },
            TokenRefresh::Signing { refresh_token, .. } => match reply {
                Reply::Text(access_token) => Step::Finish(Ok((access_token, refresh_token))),
                other => refresh_failure(other),
            },
        }
    }

    pub fn announce(&self) -> (work: Action)
        ensures
            work == self.awaiting(),
    {
        match self {
            TokenRefresh::Finding { token } => Action::FindRefreshToken { token: token.clone() },
            TokenRefresh::CheckingExpiry { .. } => Action::ReadClock,
            TokenRefresh::DeletingExpired { token } => Action::DeleteRefreshToken {
                token: token.clone(),
            },
            TokenRefresh::Revoking { user_id } => Action::DeleteAllRefreshTokens {
                user_id: *user_id,
            },
            TokenRefresh::LoadingOwner { user_id } => Action::FindUserById { user_id: *user_id },
            TokenRefresh::Alerting { email, username } => Action::SendSecurityAlert {
                to_email: email.clone(),
                username: username.clone(),
            },
            TokenRefresh::Marking { token, .. } => Action::MarkRefreshTokenUsed {
                token: token.clone(),
            },
            TokenRefresh::GeneratingNew { .. } => Action::GenerateRefreshToken,
            TokenRefresh::SavingNew { user_id, refresh_token } => Action::SaveRefreshToken {
                user_id: *user_id,
                token: refresh_token.clone(),
            },
            TokenRefresh::ReadingSecret { .. } => Action::ReadJwtSecret,
            TokenRefresh::Signing { user_id, secret, .. } => Action::IssueAccessToken {
                user_id: *user_id,
                secret: secret.clone(),
            },
        }
    }

    pub fn step(self, reply: Reply) -> (res: Step<Self, RefreshOutcome>)
        ensures
            res == self.next(reply),
    {
        match self {
            TokenRefresh::Finding { token } => match reply {
                Reply::RefreshTokenRecord(None) => Step::Finish(
                    Err(RefreshTokenError::Unauthorized),
                ),
                Reply::RefreshTokenRecord(Some(record)) => Self::advance(
                    TokenRefresh::CheckingExpiry { token, record },
                ),
                other => fail(other),
            },
            TokenRefresh::CheckingExpiry { token, record } => match reply {
                Reply::Clock(now) => if record.is_expired_at(now) {
                    Self::advance(TokenRefresh::DeletingExpired { token })
                } else if record.is_used {
                    Self::advance(TokenRefresh::Revoking { user_id: record.user_id })
                } else {
                    Self::advance(TokenRefresh::Marking { token, user_id: record.user_id })
                },
                other => fail(other),
            },
            TokenRefresh::DeletingExpired { .. } => Step::Finish(
                Err(RefreshTokenError::Unauthorized),
            ),
            TokenRefresh::Revoking { user_id } => match reply {
                Reply::Done => Self::advance(TokenRefresh::LoadingOwner { user_id }),
                other => fail(other),
            },
            TokenRefresh::LoadingOwner { user_id } => match reply {
                Reply::User(Some(owner)) => Self::advance(
                    TokenRefresh::Alerting { email: owner.email, username: owner.username },
                ),
                Reply::User(None) => Step::Finish(
                    Err(RefreshTokenError::Unknown(Fault::MissingUser(user_id))),
                ),
                other => fail(other),
            },
            TokenRefresh::Alerting { .. } => Step::Finish(Err(RefreshTokenError::Unauthorized)),
            TokenRefresh::Marking { user_id, .. } => match reply {
                Reply::Done => Self::advance(TokenRefresh::GeneratingNew { user_id }),
                other => fail(other),
            },
            TokenRefresh::GeneratingNew { user_id } => match reply {
                Reply::Text(refresh_token) => Self::advance(
                    TokenRefresh::SavingNew { user_id, refresh_token },
                ),
                other => fail(other),
            },
            TokenRefresh::SavingNew { user_id, refresh_token } => match reply {
                Reply::Done => Self::advance(TokenRefresh::ReadingSecret { user_id, refresh_token }),
                other => fail(other),
            },
            TokenRefresh::ReadingSecret { user_id, refresh_token } => match reply {
                Reply::Text(secret) => Self::advance(
                    TokenRefresh::Signing { user_id, secret, refresh_token },
                ),
                other => fail(other),
            },
            TokenRefresh::Signing { refresh_token, .. } => match reply {
                Reply::Text(access_token) => Step::Finish(Ok((access_token, refresh_token))),
                other => fail(other),
            },
        }
    }
}

} // verus!

verus! {

impl TokenRefresh {
    /// The outcome of a refresh from this state when the outside work is
    /// answered by `replies` in turn: `None` while it is still waiting.
    pub open spec fn run(self, replies: Seq<Reply>) -> Option<RefreshOutcome>
        decreases replies.len(),
    {
        if replies.len() == 0 {
            None
        } else {
            match self.next(replies[0]) {
                Step::Finish(outcome) => Some(outcome),
                Step::Continue(s, _) => s.run(replies.drop_first()),
            }
        }
    }

    /// The outside work answered along that run, in order.
    pub open spec fn performed(self, replies: Seq<Reply>) -> Seq<Action>
        decreases replies.len(),
    {
        if replies.len() == 0 {
            Seq::empty()
        } else {
            match self.next(replies[0]) {
                Step::Finish(_) => seq![self.awaiting()],
                Step::Continue(s, _) => seq![self.awaiting()] + s.performed(replies.drop_first()),
            }
        }
    }

    /// The states in which the presented token has been found unusable.
    pub open spec fn refusing(self) -> bool {
        self is DeletingExpired || self is Revoking || self is LoadingOwner || self is Alerting
    }
}

/// Every state that a refresh moves to waits for the work it announces.
pub proof fn lemma_refresh_announces_awaited_work(s: TokenRefresh, reply: Reply)
    ensures
        s.next(reply) matches Step::Continue(t, work) ==> work == t.awaiting(),
{
}

/// Once the presented token is found expired or already used, no reply can
/// make the refresh succeed.
pub proof fn lemma_refusing_never_succeeds(s: TokenRefresh, replies: Seq<Reply>)
    requires
        s.refusing(),
    ensures
        !(s.run(replies) matches Some(Ok(_))),
    decreases replies.len(),
{
    if replies.len() > 0 {
        match s.next(replies[0]) {
            Step::Continue(t, _) => lemma_refusing_never_succeeds(t, replies.drop_first()),
            Step::Finish(_) => {},
        }
    }
}

/// A token that, at the clock reading, has expired or was already used never
/// yields new tokens, whatever the later replies.
pub proof fn lemma_unusable_token_is_refused(
    token: String,
    record: RefreshToken,
    now: Timestamp,
    replies: Seq<Reply>,
)
    requires
        !record.valid_at(now),
    ensures
        !((TokenRefresh::CheckingExpiry { token, record }).run(
            seq![Reply::Clock(now)] + replies,
        ) matches Some(Ok(_))),
{
    let all = seq![Reply::Clock(now)] + replies;
    assert(all[0] == Reply::Clock(now));
    assert(all.drop_first() =~= replies);
    match (TokenRefresh::CheckingExpiry { token, record }).next(Reply::Clock(now)) {
        Step::Continue(t, _) => lemma_refusing_never_succeeds(t, replies),
        Step::Finish(_) => {},
    }
}

/// Reuse detection: an unexpired token that was already used makes the
/// refresh delete every refresh token of its owner next.
pub proof fn lemma_reuse_revokes_all_tokens(token: String, record: RefreshToken, now: Timestamp)
    requires
        record.is_used,
        !record.expired_at(now),
    ensures
        (TokenRefresh::CheckingExpiry { token, record }).next(Reply::Clock(now)) == Step::<
            TokenRefresh,
            RefreshOutcome,
        >::Continue(
            TokenRefresh::Revoking { user_id: record.user_id },
            Action::DeleteAllRefreshTokens { user_id: record.user_id },
        ),
{
}

/// An expired token is deleted, and the refresh is refused whether or not
/// the deletion succeeds; the security alert's own failure does not change
/// the answer either.
pub proof fn lemma_refusal_ignores_cleanup_replies(token: String, email: String, username: String, reply: Reply)
    ensures
        (TokenRefresh::DeletingExpired { token }).next(reply) == Step::<TokenRefresh, RefreshOutcome>::Finish(
            Err(RefreshTokenError::Unauthorized),
        ),
        (TokenRefresh::Alerting { email, username }).next(reply) == Step::<TokenRefresh, RefreshOutcome>::Finish(
            Err(RefreshTokenError::Unauthorized),
        ),
{
}

/// An expired token, used or not, is only deleted: the step after the clock
/// reading deletes that token, and whatever the deletion answers, the refresh
/// is refused with nothing else done; no other token of the owner is deleted
/// and no alert is mailed.
pub proof fn lemma_expired_token_is_only_deleted(
    token: String,
    record: RefreshToken,
    now: Timestamp,
    rest: Seq<Reply>,
)
    requires
        record.expired_at(now),
    ensures
        (TokenRefresh::CheckingExpiry { token, record }).next(Reply::Clock(now)) == Step::<
            TokenRefresh,
            RefreshOutcome,
        >::Continue(
            TokenRefresh::DeletingExpired { token },
            Action::DeleteRefreshToken { token },
        ),
        rest.len() > 0 ==> (TokenRefresh::CheckingExpiry { token, record }).run(
            seq![Reply::Clock(now)] + rest,
        ) == Some(Err::<(String, String), RefreshTokenError>(RefreshTokenError::Unauthorized)),
        rest.len() > 0 ==> (TokenRefresh::CheckingExpiry { token, record }).performed(
            seq![Reply::Clock(now)] + rest,
        ) == seq![Action::ReadClock, Action::DeleteRefreshToken { token }],
{
    let all = seq![Reply::Clock(now)] + rest;
    assert(all[0] == Reply::Clock(now));
    assert(all.drop_first() =~= rest);
    let s = TokenRefresh::CheckingExpiry { token, record };
    let t = TokenRefresh::DeletingExpired { token };
    if rest.len() > 0 {
        assert(s.run(all) == t.run(rest));
        assert(t.run(rest) == Some(Err::<(String, String), RefreshTokenError>(RefreshTokenError::Unauthorized)));
        assert(t.performed(rest) == seq![t.awaiting()]);
        assert(s.performed(all) == seq![s.awaiting()] + t.performed(rest));
        assert(s.performed(all) =~= seq![Action::ReadClock, Action::DeleteRefreshToken { token }]);
    }
}

/// Rotation: a refresh of `token` succeeds only when the stored record was
/// unused and unexpired at the clock reading, and only by doing, in this
/// order and nothing else: looking the token up, reading the clock, marking
/// the token used, drawing a new refresh token, storing it for the record's
/// owner, reading the signing secret and signing an access token for that
/// owner; and it hands out that access token and the stored refresh token.
pub proof fn lemma_refresh_rotates_tokens(token: String, replies: Seq<Reply>)
    ensures
        (TokenRefresh::Finding { token }).run(replies) matches Some(Ok((access_token, new_token)))
            ==> exists|record: RefreshToken, now: Timestamp, secret: String|
            {
                &&& replies[0] == Reply::RefreshTokenRecord(Some(record))
                &&& replies[1] == Reply::Clock(now)
                &&& record.valid_at(now)
                &&& replies[2] == Reply::Done
                &&& replies[3] == Reply::Text(new_token)
                &&& replies[4] == Reply::Done
                &&& replies[5] == Reply::Text(secret)
                &&& replies[6] == Reply::Text(access_token)
                &&& (TokenRefresh::Finding { token }).performed(replies) == seq![
                    Action::FindRefreshToken { token },
                    Action::ReadClock,
                    Action::MarkRefreshTokenUsed { token },
                    Action::GenerateRefreshToken,
                    Action::SaveRefreshToken { user_id: record.user_id, token: new_token },
                    Action::ReadJwtSecret,
                    Action::IssueAccessToken { user_id: record.user_id, secret },
                ]
            },
{
    let s0 = TokenRefresh::Finding { token };
    if s0.run(replies) matches Some(Ok(_)) {
        let r1 = replies.drop_first();
        if let Step::Continue(s1, _) = s0.next(replies[0]) {
            assert(s0.run(replies) == s1.run(r1));
            assert(s0.performed(replies) == seq![s0.awaiting()] + s1.performed(r1));
            let record = s1->record;
            let r2 = r1.drop_first();
            if let Step::Continue(s2, _) = s1.next(r1[0]) {
                assert(s1.run(r1) == s2.run(r2));
                assert(s1.performed(r1) == seq![s1.awaiting()] + s2.performed(r2));
                let now = r1[0]->Clock_0;
                if s2.refusing() {
                    lemma_refusing_never_succeeds(s2, r2);
                } else {
                    let r3 = r2.drop_first();
                    if let Step::Continue(s3, _) = s2.next(r2[0]) {
                        assert(s2.run(r2) == s3.run(r3));
                        assert(s2.performed(r2) == seq![s2.awaiting()] + s3.performed(r3));
                        let r4 = r3.drop_first();
                        if let Step::Continue(s4, _) = s3.next(r3[0]) {
                            assert(s3.run(r3) == s4.run(r4));
                            assert(s3.performed(r3) == seq![s3.awaiting()] + s4.performed(r4));
                            let r5 = r4.drop_first();
                            if let Step::Continue(s5, _) = s4.next(r4[0]) {
                                assert(s4.run(r4) == s5.run(r5));
                                assert(s4.performed(r4) == seq![s4.awaiting()] + s5.performed(
                                    r5,
                                ));
                                let r6 = r5.drop_first();
                                if let Step::Continue(s6, _) = s5.next(r5[0]) {
                                    assert(s5.run(r5) == s6.run(r6));
                                    assert(s5.performed(r5) == seq![s5.awaiting()]
                                        + s6.performed(r6));
                                    assert(s6.performed(r6) == seq![s6.awaiting()]);
                                    let new_token = s0.run(replies)->Some_0->Ok_0.1;
                                    assert(s6.run(r6) == s0.run(replies));
                                    assert(new_token == s6->Signing_refresh_token);
                                    assert(new_token == s4->SavingNew_refresh_token);
                                    let secret = s6->secret;
                                    assert(r1[0] == replies[1]);
                                    assert(r6[0] == replies[6]);
                                    assert(r2[0] == replies[2]);
                                    assert(r3[0] == replies[3]);
                                    assert(r4[0] == replies[4]);
                                    assert(r5[0] == replies[5]);
                                    assert(record.valid_at(now));
                                    assert(s0.performed(replies) =~= seq![
                                        Action::FindRefreshToken { token },
                                        Action::ReadClock,
                                        Action::MarkRefreshTokenUsed { token },
                                        Action::GenerateRefreshToken,
                                        Action::SaveRefreshToken {
                                            user_id: record.user_id,
                                            token: new_token,
                                        },
                                        Action::ReadJwtSecret,
                                        Action::IssueAccessToken {
                                            user_id: record.user_id,
                                            secret,
                                        },
                                    ]);
                                }
                            }
                        }
                    }
                }
            }
        }
    }
}

/// An outside failure ends the refresh with an internal error that carries
/// the failure's message, except while deleting an expired token or mailing
/// the security alert, where the refresh is refused as unauthorized anyway;
/// a token that is not stored is refused as unauthorized.
pub proof fn lemma_refresh_failures(s: TokenRefresh, message: String, token: String)
    ensures
        !(s is DeletingExpired || s is Alerting) ==> s.next(Reply::Failed(message)) == Step::<
            TokenRefresh,
            RefreshOutcome,
        >::Finish(Err(RefreshTokenError::Unknown(Fault::Outside(message)))),
        (TokenRefresh::Finding { token }).next(Reply::RefreshTokenRecord(None)) == Step::<
            TokenRefresh,
            RefreshOutcome,
        >::Finish(Err(RefreshTokenError::Unauthorized)),
{
}

/// Reuse detection in full: presenting an unexpired token that was already
/// used, with the owner's tokens deleted and the owner found, does exactly
/// this: read the clock, delete every refresh token of the owner, look the
/// owner up, mail the owner a security alert; and the refresh is refused as
/// unauthorized whatever the mailer answers. If the owner is gone, the
/// refresh fails with an internal error naming the owner's id.
pub proof fn lemma_reuse_run(
    token: String,
    record: RefreshToken,
    now: Timestamp,
    owner: User,
    alert_reply: Reply,
)
    requires
        record.is_used,
        !record.expired_at(now),
    ensures
        ({
            let replies = seq![
                Reply::Clock(now),
                Reply::Done,
                Reply::User(Some(owner)),
                alert_reply,
            ];
            &&& (TokenRefresh::CheckingExpiry { token, record }).run(replies) == Some(
                Err::<(String, String), RefreshTokenError>(RefreshTokenError::Unauthorized),
            )
            &&& (TokenRefresh::CheckingExpiry { token, record }).performed(replies) == seq![
                Action::ReadClock,
                Action::DeleteAllRefreshTokens { user_id: record.user_id },
                Action::FindUserById { user_id: record.user_id },
                Action::SendSecurityAlert { to_email: owner.email, username: owner.username },
            ]
        }),
        (TokenRefresh::CheckingExpiry { token, record }).run(
            seq![Reply::Clock(now), Reply::Done, Reply::User(None)],
        ) == Some(
            Err::<(String, String), RefreshTokenError>(
                RefreshTokenError::Unknown(Fault::MissingUser(record.user_id)),
            ),
        ),
{
    let replies = seq![Reply::Clock(now), Reply::Done, Reply::User(Some(owner)), alert_reply];
    let s0 = TokenRefresh::CheckingExpiry { token, record };
    let s1 = TokenRefresh::Revoking { user_id: record.user_id };
    let s2 = TokenRefresh::LoadingOwner { user_id: record.user_id };
    let s3 = TokenRefresh::Alerting { email: owner.email, username: owner.username };
    let r1 = replies.drop_first();
    let r2 = r1.drop_first();
    let r3 = r2.drop_first();
    assert(r1 =~= seq![Reply::Done, Reply::User(Some(owner)), alert_reply]);
    assert(r2 =~= seq![Reply::User(Some(owner)), alert_reply]);
    assert(r3 =~= seq![alert_reply]);
    assert(s3.run(r3) == Some(Err::<(String, String), RefreshTokenError>(RefreshTokenError::Unauthorized)));
    assert(s2.run(r2) == s3.run(r3));
    assert(s1.run(r1) == s2.run(r2));
    assert(s0.run(replies) == s1.run(r1));
    assert(s3.performed(r3) == seq![s3.awaiting()]);
    assert(s2.performed(r2) == seq![s2.awaiting()] + s3.performed(r3));
    assert(s1.performed(r1) == seq![s1.awaiting()] + s2.performed(r2));
    assert(s0.performed(replies) == seq![s0.awaiting()] + s1.performed(r1));
    assert(s0.performed(replies) =~= seq![
        Action::ReadClock,
        Action::DeleteAllRefreshTokens { user_id: record.user_id },
        Action::FindUserById { user_id: record.user_id },
        Action::SendSecurityAlert { to_email: owner.email, username: owner.username },
    ]);
    let gone = seq![Reply::Clock(now), Reply::Done, Reply::User(None)];
    let g1 = gone.drop_first();
    let g2 = g1.drop_first();
    assert(g1 =~= seq![Reply::Done, Reply::User(None)]);
    assert(g2 =~= seq![Reply::User(None)]);
    assert(s1.run(g1) == s2.run(g2));
    assert(s0.run(gone) == s1.run(g1));
}

} // verus!

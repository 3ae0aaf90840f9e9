//! Opening a session for a user: sign an access token and store a fresh
//! refresh token. Shared by registration and login.

use vstd::prelude::*;
use crate::fault::Fault;
use crate::models::user::User;
use crate::service::{fault_from, fault_of, Action, Reply, Step};

verus! {

/// Where the opening of a session stands.
#[derive(Clone, Debug, PartialEq, Eq)]
pub enum SessionIssue {
    ReadingSecret { user: User },
    Signing { user: User, secret: String },
    GeneratingRefresh { user: User, access_token: String },
    SavingRefresh { user: User, access_token: String, refresh_token: String },
}

impl SessionIssue {
    /// Starts opening a session for `user` by reading the signing secret.
    pub fn start(user: User) -> (res: (SessionIssue, Action))
        ensures
            res.0 == (SessionIssue::ReadingSecret { user }),
            res.1 == res.0.awaiting(),
    {
        (SessionIssue::ReadingSecret { user }, Action::ReadJwtSecret)
    }
}

/// The user, the access token and the refresh token.
pub type SessionOutcome = Result<(User, String, String), Fault>;

impl SessionIssue {
    /// Go on in state `s`, announcing the work that `s` waits for.
    pub open spec fn proceed(s: Self) -> Step<Self, SessionOutcome> {
        Step::Continue(s, s.awaiting())
    }

    fn advance(s: Self) -> (res: Step<Self, SessionOutcome>)
        ensures
            res == Self::proceed(s),
    {
        let work = s.announce();
        Step::Continue(s, work)
    }

    /// The outside work whose answer the session waits for in this state.
    pub open spec fn awaiting(self) -> Action {
        match self {
            SessionIssue::ReadingSecret { .. } => Action::ReadJwtSecret,
            SessionIssue::Signing { user, secret } => Action::IssueAccessToken {
                user_id: user.id,
                secret,
            },
            SessionIssue::GeneratingRefresh { .. } => Action::GenerateRefreshToken,
            SessionIssue::SavingRefresh { user, refresh_token, .. } => Action::SaveRefreshToken {
                user_id: user.id,
                token: refresh_token,
            },
        }
    }

    /// What the session does with `reply` in this state.
    pub open spec fn next(self, reply: Reply) -> Step<Self, SessionOutcome> {
        match self {
            SessionIssue::ReadingSecret { user } => match reply {
                Reply::Text(secret) => Self::proceed(SessionIssue::Signing { user, secret }),
                other => Step::Finish(Err(fault_of(other))),
            },
            SessionIssue::Signing { user, .. } => match reply {
                Reply::Text(access_token) => Self::proceed(
                    SessionIssue::GeneratingRefresh { user, access_token },
                ),
                other => Step::Finish(Err(fault_of(other))),
            },
            SessionIssue::GeneratingRefresh { user, access_token } => match reply {
                Reply::Text(refresh_token) => Self::proceed(
                    SessionIssue::SavingRefresh { user, access_token, refresh_token },
                ),
                other => Step::Finish(Err(fault_of(other))),
            },
            SessionIssue::SavingRefresh { user, access_token, refresh_token } => match reply {
                Reply::Done => Step::Finish(Ok((user, access_token, refresh_token))),
                other => Step::Finish(Err(fault_of(other))),
            },
        }
    }

    /// The awaited work, built for the runner.
    pub fn announce(&self) -> (work: Action)
        ensures
            work == self.awaiting(),
    {
        match self {
            SessionIssue::ReadingSecret { .. } => Action::ReadJwtSecret,
            SessionIssue::Signing { user, secret } => Action::IssueAccessToken {
                user_id: user.id,
                secret: secret.clone(),
            },
            SessionIssue::GeneratingRefresh { .. } => Action::GenerateRefreshToken,
            SessionIssue::SavingRefresh { user, refresh_token, .. } => Action::SaveRefreshToken {
                user_id: user.id,
                token: refresh_token.clone(),
            },
        }
    }

    /// Takes a reply and decides.
    pub fn step(self, reply: Reply) -> (res: Step<Self, SessionOutcome>)
        ensures
            res == self.next(reply),
    {
        match self {
            SessionIssue::ReadingSecret { user } => match reply {
                Reply::Text(secret) => Self::advance(SessionIssue::Signing { user, secret }),
                other => Step::Finish(Err(fault_from(other))),
            },
            SessionIssue::Signing { user, .. } => match reply {
                Reply::Text(access_token) => Self::advance(
                    SessionIssue::GeneratingRefresh { user, access_token },
                ),
                other => Step::Finish(Err(fault_from(other))),
            },
            SessionIssue::GeneratingRefresh { user, access_token } => match reply {
                Reply::Text(refresh_token) => Self::advance(
                    SessionIssue::SavingRefresh { user, access_token, refresh_token },
                ),
                other => Step::Finish(Err(fault_from(other))),
            },
            SessionIssue::SavingRefresh { user, access_token, refresh_token } => match reply {
                Reply::Done => Step::Finish(Ok((user, access_token, refresh_token))),
                other => Step::Finish(Err(fault_from(other))),
            },
        }
    }
}

} // verus!

verus! {

impl SessionIssue {
    /// The outcome from this state when the outside work is answered by
    /// `replies` in turn: `None` while it is still waiting.
    pub open spec fn run(self, replies: Seq<Reply>) -> Option<SessionOutcome>
        decreases replies.len(),
    {
        if replies.len() == 0 {
            None
        } else {
            match self.next(replies[0]) {
                Step::Finish(outcome) => Some(outcome),
                Step::Continue(s, _) => s.run(replies.drop_first()),
            }
        }
    }

    /// The outside work answered along that run, in order.
    pub open spec fn performed(self, replies: Seq<Reply>) -> Seq<Action>
        decreases replies.len(),
    {
        if replies.len() == 0 {
            Seq::empty()
        } else {
            match self.next(replies[0]) {
                Step::Finish(_) => seq![self.awaiting()],
                Step::Continue(s, _) => seq![self.awaiting()] + s.performed(replies.drop_first()),
            }
        }
    }
}

/// Every state that the opening of a session moves to waits for the work it announces.
pub proof fn lemma_session_announces_awaited_work(s: SessionIssue, reply: Reply)
    ensures
        s.next(reply) matches Step::Continue(t, work) ==> work == t.awaiting(),
{
}

/// A session opened for `user` hands out that user, an access token signed
/// for that user's id, and a refresh token that was stored for that user's id.
pub proof fn lemma_session_stores_the_refresh_token(user: User, replies: Seq<Reply>)
    ensures
        (SessionIssue::ReadingSecret { user }).run(replies) matches Some(
            Ok((opened, _, refresh_token)),
        ) ==> opened == user && exists|secret: String|
            (SessionIssue::ReadingSecret { user }).performed(replies) == seq![
                Action::ReadJwtSecret,
                Action::IssueAccessToken { user_id: user.id, secret },
                Action::GenerateRefreshToken,
                Action::SaveRefreshToken { user_id: user.id, token: refresh_token },
            ],
{
    let s0 = SessionIssue::ReadingSecret { user };
    if s0.run(replies) matches Some(Ok(_)) {
        let r1 = replies.drop_first();
        if let Step::Continue(s1, _) = s0.next(replies[0]) {
            assert(s0.run(replies) == s1.run(r1));
            let r2 = r1.drop_first();
            if let Step::Continue(s2, _) = s1.next(r1[0]) {
                assert(s1.run(r1) == s2.run(r2));
                let r3 = r2.drop_first();
                if let Step::Continue(s3, _) = s2.next(r2[0]) {
                    assert(s2.run(r2) == s3.run(r3));
                    let secret = s1->secret;
                    let refresh_token = s3->SavingRefresh_refresh_token;
                    assert(s3.performed(r3) == seq![s3.awaiting()]);
                    assert(s2.performed(r2) == seq![s2.awaiting()] + s3.performed(r3));
                    assert(s1.performed(r1) == seq![s1.awaiting()] + s2.performed(r2));
                    assert(s0.performed(replies) == seq![s0.awaiting()] + s1.performed(r1));
                    assert(s0.performed(replies) =~= seq![
                        Action::ReadJwtSecret,
                        Action::IssueAccessToken { user_id: user.id, secret },
                        Action::GenerateRefreshToken,
                        Action::SaveRefreshToken { user_id: user.id, token: refresh_token },
                    ]);
                }
            }
        }
    }
}

/// A session opens only when reading the secret, signing and drawing the
/// refresh token each produced a text and storing the refresh token was
/// answered as succeeded; the tokens handed out are the ones produced.
pub proof fn lemma_session_replies(user: User, replies: Seq<Reply>)
    ensures
        (SessionIssue::ReadingSecret { user }).run(replies) matches Some(
            Ok((_, access_token, refresh_token)),
        ) ==> {
            &&& replies.len() >= 4
            &&& replies[0] is Text
            &&& replies[1] == Reply::Text(access_token)
            &&& replies[2] == Reply::Text(refresh_token)
            &&& replies[3] == Reply::Done
        },
{
    let s0 = SessionIssue::ReadingSecret { user };
    if s0.run(replies) matches Some(Ok(_)) {
        let r1 = replies.drop_first();
        if let Step::Continue(s1, _) = s0.next(replies[0]) {
            assert(s0.run(replies) == s1.run(r1));
            let r2 = r1.drop_first();
            if let Step::Continue(s2, _) = s1.next(r1[0]) {
                assert(s1.run(r1) == s2.run(r2));
                let r3 = r2.drop_first();
                if let Step::Continue(s3, _) = s2.next(r2[0]) {
                    assert(s2.run(r2) == s3.run(r3));
                    assert(r1[0] == replies[1]);
                    assert(r2[0] == replies[2]);
                    assert(r3[0] == replies[3]);
                }
            }
        }
    }
}

} // verus!

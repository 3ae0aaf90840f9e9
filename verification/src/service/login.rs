//! Logging in: find the user by e-mail address, check the password, then
//! open a session. An unknown address and a wrong password get the same answer.

use vstd::prelude::*;
use crate::models::user::{LoginError, LoginUserRequest, User};
use crate::service::session::{SessionIssue, SessionOutcome};
use crate::service::{fault_from, fault_of, Action, Reply, Step};

verus! {

/// The user, the access token and the refresh token.
pub type LoginOutcome = Result<(User, String, String), LoginError>;

/// Where a login stands.
#[derive(Clone, Debug, PartialEq, Eq)]
pub enum Login {
    FindingUser { email: String, password: String },
    CheckingPassword { user: User, password: String },
    OpeningSession { session: SessionIssue },
}

pub open spec fn login_from_session(outcome: SessionOutcome) -> LoginOutcome {
    match outcome {
        Ok(opened) => Ok(opened),
        Err(fault) => Err(LoginError::Unknown(fault)),
    }
}

pub open spec fn login_failure(reply: Reply) -> Step<Login, LoginOutcome> {
    Step::Finish(Err(LoginError::Unknown(fault_of(reply))))
}

fn fail(reply: Reply) -> (res: Step<Login, LoginOutcome>)
    ensures
        res == login_failure(reply),
{
    Step::Finish(Err(LoginError::Unknown(fault_from(reply))))
}

impl Login {
    /// Starts a login by looking up the e-mail address.
    pub fn start(req: LoginUserRequest) -> (res: (Login, Action))
        ensures
            res.0 == (Login::FindingUser { email: req.user.email, password: req.user.password }),
            res.1 == res.0.awaiting(),
    {
        let s = Login::FindingUser { email: req.user.email, password: req.user.password };
        let work = s.announce();
        (s, work)
    }

    pub open spec fn proceed(s: Self) -> Step<Self, LoginOutcome> {
        Step::Continue(s, s.awaiting())
    }

    fn advance(s: Self) -> (res: Step<Self, LoginOutcome>)
        ensures
            res == Self::proceed(s),
    {
        let work = s.announce();
        Step::Continue(s, work)
    }

    /// The outside work whose answer the login waits for in this state.
    pub open spec fn awaiting(self) -> Action {
        match self {
            Login::FindingUser { email, .. } => Action::FindUserByEmail { email },
            Login::CheckingPassword { user, password } => Action::VerifyPassword {
                password,
                password_hash: user.password_hash,
            },
            Login::OpeningSession { session } => session.awaiting(),
        }
    }

    /// What the login does with `reply` in this state.
    pub open spec fn next(self, reply: Reply) -> Step<Self, LoginOutcome> {
        match self {
            Login::FindingUser { password, .. } => match reply {
                Reply::User(None) => Step::Finish(Err(LoginError::Unauthorized)),
                Reply::User(Some(user)) => Self::proceed(Login::CheckingPassword { user, password }),
                other => login_failure(other),
            },
            Login::CheckingPassword { user, .. } => match reply {
                Reply::PasswordMatches(false) => Step::Finish(Err(LoginError::Unauthorized)),
                Reply::PasswordMatches(true) => Self::proceed(
                    Login::OpeningSession { session: SessionIssue::ReadingSecret { user } },
                ),
                other => login_failure(other),
            },
            Login::OpeningSession { session } => match session.next(reply) {
                Step::Continue(session, work) => Step::Continue(
                    Login::OpeningSession { session },
                    work,
                ),
                Step::Finish(outcome) => Step::Finish(login_from_session(outcome)),
            },
        }
    }

    /// The awaited work, built for the runner.
    pub fn announce(&self) -> (work: Action)
        ensures
            work == self.awaiting(),
    {
        match self {
            Login::FindingUser { email, .. } => Action::FindUserByEmail { email: email.clone() },
            Login::CheckingPassword { user, password } => Action::VerifyPassword {
                password: password.clone(),
                password_hash: user.password_hash.clone(),
            },
            Login::OpeningSession { session } => session.announce(),
        }
    }

    /// Takes a reply and decides.
    pub fn step(self, reply: Reply) -> (res: Step<Self, LoginOutcome>)
        ensures
            res == self.next(reply),
    {
        match self {
            Login::FindingUser { password, .. } => match reply {
                Reply::User(None) => Step::Finish(Err(LoginError::Unauthorized)),
                Reply::User(Some(user)) => Self::advance(Login::CheckingPassword { user, password }),
                other => fail(other),
            },
            Login::CheckingPassword { user, .. } => match reply {
                Reply::PasswordMatches(false) => Step::Finish(Err(LoginError::Unauthorized)),
                Reply::PasswordMatches(true) => Self::advance(
                    Login::OpeningSession { session: SessionIssue::ReadingSecret { user } },
                ),
                other => fail(other),
            },
            Login::OpeningSession { session } => match session.step(reply) {
                Step::Continue(session, work) => Step::Continue(
                    Login::OpeningSession { session },
                    work,
                ),
                Step::Finish(Ok(opened)) => Step::Finish(Ok(opened)),
                Step::Finish(Err(fault)) => Step::Finish(Err(LoginError::Unknown(fault))),
            },
        }
    }
}

} // verus!

verus! {

/// Every state that a login moves to waits for the work it announces.
pub proof fn lemma_login_announces_awaited_work(s: Login, reply: Reply)
    ensures
        s.next(reply) matches Step::Continue(t, work) ==> work == t.awaiting(),
{
    if let Login::OpeningSession { session } = s {
        crate::service::session::lemma_session_announces_awaited_work(session, reply);
    }
}

/// An unknown address and a wrong password get the same answer, and only a
/// matching password leads on to opening a session for the user found.
pub proof fn lemma_login_refuses_alike(email: String, password: String, user: User)
    ensures
        (Login::FindingUser { email, password }).next(Reply::User(None)) == Step::<
            Login,
            LoginOutcome,
        >::Finish(Err(LoginError::Unauthorized)),
        (Login::CheckingPassword { user, password }).next(Reply::PasswordMatches(false))
            == Step::<Login, LoginOutcome>::Finish(Err(LoginError::Unauthorized)),
        (Login::CheckingPassword { user, password }).next(Reply::PasswordMatches(true))
            == Step::<Login, LoginOutcome>::Continue(
            Login::OpeningSession { session: SessionIssue::ReadingSecret { user } },
            Action::ReadJwtSecret,
        ),
        (Login::FindingUser { email, password }).next(Reply::User(Some(user))) == Step::<
            Login,
            LoginOutcome,
        >::Continue(
            Login::CheckingPassword { user, password },
            Action::VerifyPassword { password, password_hash: user.password_hash },
        ),
{
}

} // verus!

verus! {

impl Login {
    /// The outcome from this state when the outside work is answered by
    /// `replies` in turn: `None` while it is still waiting.
    pub open spec fn run(self, replies: Seq<Reply>) -> Option<LoginOutcome>
        decreases replies.len(),
    {
        if replies.len() == 0 {
            None
        } else {
            match self.next(replies[0]) {
                Step::Finish(outcome) => Some(outcome),
                Step::Continue(s, _) => s.run(replies.drop_first()),
            }
        }
    }

    /// The outside work answered along that run, in order.
    pub open spec fn performed(self, replies: Seq<Reply>) -> Seq<Action>
        decreases replies.len(),
    {
        if replies.len() == 0 {
            Seq::empty()
        } else {
            match self.next(replies[0]) {
                Step::Finish(_) => seq![self.awaiting()],
                Step::Continue(s, _) => seq![self.awaiting()] + s.performed(replies.drop_first()),
            }
        }
    }
}

/// Opening the session inside a login runs exactly as opening it alone.
proof fn lemma_login_session_runs_alone(session: SessionIssue, replies: Seq<Reply>)
    ensures
        (Login::OpeningSession { session }).performed(replies) == session.performed(replies),
        (Login::OpeningSession { session }).run(replies) == (match session.run(replies) {
            Some(outcome) => Some(login_from_session(outcome)),
            None => None,
        }),
    decreases replies.len(),
{
    if replies.len() > 0 {
        match session.next(replies[0]) {
            Step::Continue(t, _) => lemma_login_session_runs_alone(t, replies.drop_first()),
            Step::Finish(_) => {},
        }
    }
}

/// A login succeeds only by finding the user with the given address, checking
/// the given password against that user's hash, signing an access token for
/// that user and storing a fresh refresh token for that user, in this order
/// and nothing else; and it hands out that user and the stored refresh token.
pub proof fn lemma_login_success(email: String, password: String, replies: Seq<Reply>)
    ensures
        (Login::FindingUser { email, password }).run(replies) matches Some(
            Ok((user, _, refresh_token)),
        ) ==> exists|secret: String|
            (Login::FindingUser { email, password }).performed(replies) == seq![
                Action::FindUserByEmail { email },
                Action::VerifyPassword { password, password_hash: user.password_hash },
                Action::ReadJwtSecret,
                Action::IssueAccessToken { user_id: user.id, secret },
                Action::GenerateRefreshToken,
                Action::SaveRefreshToken { user_id: user.id, token: refresh_token },
            ],
{
    let s0 = Login::FindingUser { email, password };
    if s0.run(replies) matches Some(Ok(_)) {
        let r1 = replies.drop_first();
        if let Step::Continue(s1, _) = s0.next(replies[0]) {
            assert(s0.run(replies) == s1.run(r1));
            assert(s0.performed(replies) == seq![s0.awaiting()] + s1.performed(r1));
            let r2 = r1.drop_first();
            if let Step::Continue(s2, _) = s1.next(r1[0]) {
                assert(s1.run(r1) == s2.run(r2));
                assert(s1.performed(r1) == seq![s1.awaiting()] + s2.performed(r2));
                let found = s1->CheckingPassword_user;
                let session = SessionIssue::ReadingSecret { user: found };
                assert(s2 == Login::OpeningSession { session });
                lemma_login_session_runs_alone(session, r2);
                crate::service::session::lemma_session_stores_the_refresh_token(found, r2);
                let secret = choose|secret: String|
                    session.performed(r2) == seq![
                        Action::ReadJwtSecret,
                        Action::IssueAccessToken { user_id: found.id, secret },
                        Action::GenerateRefreshToken,
                        Action::SaveRefreshToken {
                            user_id: found.id,
                            token: session.run(r2)->Some_0->Ok_0.2,
                        },
                    ];
                assert(s0.performed(replies) =~= seq![
                    Action::FindUserByEmail { email },
                    Action::VerifyPassword { password, password_hash: found.password_hash },
                    Action::ReadJwtSecret,
                    Action::IssueAccessToken { user_id: found.id, secret },
                    Action::GenerateRefreshToken,
                    Action::SaveRefreshToken {
                        user_id: found.id,
                        token: session.run(r2)->Some_0->Ok_0.2,
                    },
                ]);
            }
        }
    }
}

/// A login succeeds only when the lookup found a user and the password check
/// answered that it matched, and it hands out exactly that user together with
/// the access token signed and the refresh token drawn, the refresh token's
/// store having answered that it succeeded.
pub proof fn lemma_login_success_replies(email: String, password: String, replies: Seq<Reply>)
    ensures
        (Login::FindingUser { email, password }).run(replies) matches Some(
            Ok((user, access_token, refresh_token)),
        ) ==> {
            &&& replies[0] == Reply::User(Some(user))
            &&& replies[1] == Reply::PasswordMatches(true)
            &&& replies[2] is Text
            &&& replies[3] == Reply::Text(access_token)
            &&& replies[4] == Reply::Text(refresh_token)
            &&& replies[5] == Reply::Done
        },
{
    let s0 = Login::FindingUser { email, password };
    if s0.run(replies) matches Some(Ok(_)) {
        let r1 = replies.drop_first();
        if let Step::Continue(s1, _) = s0.next(replies[0]) {
            assert(s0.run(replies) == s1.run(r1));
            let r2 = r1.drop_first();
            if let Step::Continue(s2, _) = s1.next(r1[0]) {
                assert(s1.run(r1) == s2.run(r2));
                assert(r1[0] == replies[1]);
                let found = s1->CheckingPassword_user;
                let session = SessionIssue::ReadingSecret { user: found };
                lemma_login_session_runs_alone(session, r2);
                crate::service::session::lemma_session_stores_the_refresh_token(found, r2);
                crate::service::session::lemma_session_replies(found, r2);
                assert(r2[0] == replies[2]);
                assert(r2[1] == replies[3]);
                assert(r2[2] == replies[4]);
                assert(r2[3] == replies[5]);
            }
        }
    }
}

/// An outside failure, whatever state it comes in, ends the login with an
/// internal error that carries the failure's message.
pub proof fn lemma_login_reports_outside_failures(s: Login, message: String)
    ensures
        s.next(Reply::Failed(message)) == Step::<Login, LoginOutcome>::Finish(
            Err(LoginError::Unknown(crate::fault::Fault::Outside(message))),
        ),
{
}

} // verus!

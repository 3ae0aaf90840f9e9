//! Registering a new account: refuse a taken e-mail address or username,
//! store the user with a hashed password, store and mail an e-mail
//! verification token valid for 24 hours, then open a session.

use vstd::prelude::*;
use crate::models::user::{RegisterUserData, RegisterUserError, RegisterUserRequest, User};
use crate::service::session::{SessionIssue, SessionOutcome};
use crate::service::{fault_from, fault_of, Action, Reply, Step};
use crate::time::{plus_hours_spec, representable, SECS_PER_HOUR, Timestamp};
use crate::fault::Fault;

verus! {

/// How long an e-mail verification token stays valid, in hours.
pub const VERIFICATION_TOKEN_HOURS: i64 = 24;

/// The new user, the access token and the refresh token.
pub type RegistrationOutcome = Result<(User, String, String), RegisterUserError>;

/// Where a registration stands.
#[derive(Clone, Debug, PartialEq, Eq)]
pub enum Registration {
    CheckingEmail { data: RegisterUserData },
    CheckingUsername { data: RegisterUserData },
    Hashing { data: RegisterUserData },
    Creating { username: String, email: String, password_hash: String },
    GeneratingVerification { user: User },
    ReadingClock { user: User, token: String },
    SavingVerification { user: User, token: String, expires_at: Timestamp },
    Notifying { user: User, token: String },
    OpeningSession { session: SessionIssue },
}

/// The registration outcome that a session outcome gives.
pub open spec fn from_session(outcome: SessionOutcome) -> RegistrationOutcome {
    match outcome {
        Ok(opened) => Ok(opened),
        Err(fault) => Err(RegisterUserError::Unknown(fault)),
    }
}

/// A registration failing on this reply.
pub open spec fn failure(reply: Reply) -> Step<Registration, RegistrationOutcome> {
    Step::Finish(Err(RegisterUserError::Unknown(fault_of(reply))))
}

fn fail(reply: Reply) -> (res: Step<Registration, RegistrationOutcome>)
    ensures
        res == failure(reply),
{
    Step::Finish(Err(RegisterUserError::Unknown(fault_from(reply))))
}

impl Registration {
    /// Starts a registration by looking up the e-mail address.
    pub fn start(req: RegisterUserRequest) -> (res: (Registration, Action))
        ensures
            res.0 == (Registration::CheckingEmail { data: req.user }),
            res.1 == res.0.awaiting(),
    {
        let s = Registration::CheckingEmail { data: req.user };
        let work = s.announce();
        (s, work)
    }

    pub open spec fn proceed(s: Self) -> Step<Self, RegistrationOutcome> {
        Step::Continue(s, s.awaiting())
    }

    fn advance(s: Self) -> (res: Step<Self, RegistrationOutcome>)
        ensures
            res == Self::proceed(s),
    {
        let work = s.announce();
        Step::Continue(s, work)
    }

    /// The outside work whose answer the registration waits for in this state.
    pub open spec fn awaiting(self) -> Action {
        match self {
            Registration::CheckingEmail { data } => Action::FindUserByEmail { email: data.email },
            Registration::CheckingUsername { data } => Action::FindUserByUsername {
                username: data.username,
            },
            Registration::Hashing { data } => Action::HashPassword { password: data.password },
            Registration::Creating { username, email, password_hash } => Action::CreateUser {
                username,
                email,
                password_hash,
            },
            Registration::GeneratingVerification { .. } => Action::GenerateVerificationToken,
            Registration::ReadingClock { .. } => Action::ReadClock,
            Registration::SavingVerification { user, token, expires_at } =>
                Action::SaveEmailVerificationToken { user_id: user.id, token, expires_at },
            Registration::Notifying { user, token } => Action::SendVerificationEmail {
                to_email: user.email,
                username: user.username,
                token,
            },
            Registration::OpeningSession { session } => session.awaiting(),
        }
    }

    /// What the registration does with `reply` in this state.
    pub open spec fn next(self, reply: Reply) -> Step<Self, RegistrationOutcome> {
        match self {
            Registration::CheckingEmail { data } => match reply {
                Reply::User(Some(_)) => Step::Finish(
                    Err(RegisterUserError::DuplicateEmail { email: data.email }),
                ),
                Reply::User(None) => Self::proceed(Registration::CheckingUsername { data }),
                other => failure(other),
            },
            Registration::CheckingUsername { data } => match reply {
                Reply::User(Some(_)) => Step::Finish(
                    Err(RegisterUserError::DuplicateUsername { username: data.username }),
                ),
                Reply::User(None) => Self::proceed(Registration::Hashing { data }),
                other => failure(other),
            },
            Registration::Hashing { data } => match reply {
                Reply::Text(password_hash) => Self::proceed(
                    Registration::Creating {
                        username: data.username,
                        email: data.email,
                        password_hash,
                    },
                ),
                other => failure(other),
            },
            Registration::Creating { .. } => match reply {
                Reply::CreatedUser(user) => Self::proceed(
                    Registration::GeneratingVerification { user },
                ),
                other => failure(other),
            },
            Registration::GeneratingVerification { user } => match reply {
                Reply::Text(token) => Self::proceed(Registration::ReadingClock { user, token }),
                other => failure(other),
            },
            Registration::ReadingClock { user, token } => match reply {
                Reply::Clock(now) => if representable(
                    now.secs + VERIFICATION_TOKEN_HOURS * SECS_PER_HOUR,
                ) {
                    Self::proceed(
                        Registration::SavingVerification {
                            user,
                            token,
                            expires_at: plus_hours_spec(now, VERIFICATION_TOKEN_HOURS as int),
                        },
                    )
                } else {
                    Step::Finish(Err(RegisterUserError::Unknown(Fault::ExpiryOutOfRange)))
                },
                other => failure(other),
            },
            Registration::SavingVerification { user, token, .. } => match reply {
                Reply::Done => Self::proceed(Registration::Notifying { user, token }),
                other => failure(other),
            },
            Registration::Notifying { user, .. } => match reply {
                Reply::Done => Self::proceed(
                    Registration::OpeningSession { session: SessionIssue::ReadingSecret { user } },
                ),
                other => failure(other),
            },
            Registration::OpeningSession { session } => match session.next(reply) {
                Step::Continue(session, work) => Step::Continue(
                    Registration::OpeningSession { session },
                    work,
                ),
                Step::Finish(outcome) => Step::Finish(from_session(outcome)),
            },
        }
    }

    /// The awaited work, built for the runner.
    pub fn announce(&self) -> (work: Action)
        ensures
            work == self.awaiting(),
    {
        match self {
            Registration::CheckingEmail { data } => Action::FindUserByEmail {
                email: data.email.clone(),
            },
            Registration::CheckingUsername { data } => Action::FindUserByUsername {
                username: data.username.clone(),
            },
            Registration::Hashing { data } => Action::HashPassword {
                password: data.password.clone(),
            },
            Registration::Creating { username, email, password_hash } => Action::CreateUser {
                username: username.clone(),
                email: email.clone(),
                password_hash: password_hash.clone(),
            },
            Registration::GeneratingVerification { .. } => Action::GenerateVerificationToken,
            Registration::ReadingClock { .. } => Action::ReadClock,
            Registration::SavingVerification { user, token, expires_at } =>
                Action::SaveEmailVerificationToken {
                    user_id: user.id,
                    token: token.clone(),
                    expires_at: *expires_at,
                },
            Registration::Notifying { user, token } => Action::SendVerificationEmail {
                to_email: user.email.clone(),
                username: user.username.clone(),
                token: token.clone(),
            },
            Registration::OpeningSession { session } => session.announce(),
        }
    }

    /// Takes a reply and decides.
    pub fn step(self, reply: Reply) -> (res: Step<Self, RegistrationOutcome>)
        ensures
            res == self.next(reply),
    {
        match self {
            Registration::CheckingEmail { data } => match reply {
                Reply::User(Some(_)) => Step::Finish(
                    Err(RegisterUserError::DuplicateEmail { email: data.email }),
                ),
                Reply::User(None) => Self::advance(Registration::CheckingUsername { data }),
                other => fail(other),
            },
            Registration::CheckingUsername { data } => match reply {
                Reply::User(Some(_)) => Step::Finish(
                    Err(RegisterUserError::DuplicateUsername { username: data.username }),
                ),
                Reply::User(None) => Self::advance(Registration::Hashing { data }),
                other => fail(other),
            },
            Registration::Hashing { data } => match reply {
                Reply::Text(password_hash) => Self::advance(
                    Registration::Creating {
                        username: data.username,
                        email: data.email,
                        password_hash,
                    },
                ),
                other => fail(other),
            },
            Registration::Creating { .. } => match reply {
                Reply::CreatedUser(user) => Self::advance(
                    Registration::GeneratingVerification { user },
                ),
                other => fail(other),
            },
            Registration::GeneratingVerification { user } => match reply {
                Reply::Text(token) => Self::advance(Registration::ReadingClock { user, token }),
                other => fail(other),
            },
            Registration::ReadingClock { user, token } => match reply {
                Reply::Clock(now) => match now.checked_add_hours(VERIFICATION_TOKEN_HOURS) {
                    Some(expires_at) => Self::advance(
                        Registration::SavingVerification { user, token, expires_at },
                    ),
                    None => Step::Finish(Err(RegisterUserError::Unknown(Fault::ExpiryOutOfRange))),
                },
                other => fail(other),
            },
            Registration::SavingVerification { user, token, .. } => match reply {
                Reply::Done => Self::advance(Registration::Notifying { user, token }),
                other => fail(other),
            },
            Registration::Notifying { user, .. } => match reply {
                Reply::Done => Self::advance(
                    Registration::OpeningSession { session: SessionIssue::ReadingSecret { user } },
                ),
                other => fail(other),
            },
            Registration::OpeningSession { session } => match session.step(reply) {
                Step::Continue(session, work) => Step::Continue(
                    Registration::OpeningSession { session },
                    work,
                ),
                Step::Finish(Ok(opened)) => Step::Finish(Ok(opened)),
                Step::Finish(Err(fault)) => Step::Finish(Err(RegisterUserError::Unknown(fault))),
            },
        }
    }
}

} // verus!

verus! {

/// Every state that a registration moves to waits for the work it announces.
pub proof fn lemma_registration_announces_awaited_work(s: Registration, reply: Reply)
    ensures
        s.next(reply) matches Step::Continue(t, work) ==> work == t.awaiting(),
{
    if let Registration::OpeningSession { session } = s {
        crate::service::session::lemma_session_announces_awaited_work(session, reply);
    }
}

/// A taken e-mail address or username ends the registration with the
/// matching error before any user is stored.
pub proof fn lemma_taken_identity_is_refused(data: RegisterUserData, existing: User)
    ensures
        (Registration::CheckingEmail { data }).next(Reply::User(Some(existing))) == Step::<
            Registration,
            RegistrationOutcome,
        >::Finish(Err(RegisterUserError::DuplicateEmail { email: data.email })),
        (Registration::CheckingUsername { data }).next(Reply::User(Some(existing))) == Step::<
            Registration,
            RegistrationOutcome,
        >::Finish(Err(RegisterUserError::DuplicateUsername { username: data.username })),
{
}

/// The password is stored only as the hash that the hashing work returned,
/// with the requested username and e-mail address.
pub proof fn lemma_only_the_hash_is_stored(data: RegisterUserData, password_hash: String)
    ensures
        (Registration::Hashing { data }).next(Reply::Text(password_hash)) == Step::<
            Registration,
            RegistrationOutcome,
        >::Continue(
            Registration::Creating {
                username: data.username,
                email: data.email,
                password_hash,
            },
            Action::CreateUser { username: data.username, email: data.email, password_hash },
        ),
{
}

/// The e-mail verification token is stored to expire 24 hours after the clock
/// reading, and has not expired at that reading.
pub proof fn lemma_verification_token_lasts_a_day(user: User, token: String, now: Timestamp)
    requires
        representable(now.secs + 24 * SECS_PER_HOUR),
    ensures
        (Registration::ReadingClock { user, token }).next(Reply::Clock(now)) == Step::<
            Registration,
            RegistrationOutcome,
        >::Continue(
            Registration::SavingVerification {
                user,
                token,
                expires_at: plus_hours_spec(now, 24),
            },
            Action::SaveEmailVerificationToken {
                user_id: user.id,
                token,
                expires_at: plus_hours_spec(now, 24),
            },
        ),
        !crate::time::later_than(now, plus_hours_spec(now, 24)),
{
    crate::time::lemma_fresh_expiry_not_passed(now, 24);
}

} // verus!

verus! {

impl Registration {
    /// The outcome from this state when the outside work is answered by
    /// `replies` in turn: `None` while it is still waiting.
    pub open spec fn run(self, replies: Seq<Reply>) -> Option<RegistrationOutcome>
        decreases replies.len(),
    {
        if replies.len() == 0 {
            None
        } else {
            match self.next(replies[0]) {
                Step::Finish(outcome) => Some(outcome),
                Step::Continue(s, _) => s.run(replies.drop_first()),
            }
        }
    }

    /// The outside work answered along that run, in order.
    pub open spec fn performed(self, replies: Seq<Reply>) -> Seq<Action>
        decreases replies.len(),
    {
        if replies.len() == 0 {
            Seq::empty()
        } else {
            match self.next(replies[0]) {
                Step::Finish(_) => seq![self.awaiting()],
                Step::Continue(s, _) => seq![self.awaiting()] + s.performed(replies.drop_first()),
            }
        }
    }
}

/// Opening the session inside a registration runs exactly as opening it alone.
proof fn lemma_registration_session_runs_alone(session: SessionIssue, replies: Seq<Reply>)
    ensures
        (Registration::OpeningSession { session }).performed(replies) == session.performed(replies),
        (Registration::OpeningSession { session }).run(replies) == (match session.run(replies) {
            Some(outcome) => Some(from_session(outcome)),
            None => None,
        }),
    decreases replies.len(),
{
    if replies.len() > 0 {
        match session.next(replies[0]) {
            Step::Continue(t, _) => lemma_registration_session_runs_alone(t, replies.drop_first()),
            Step::Finish(_) => {},
        }
    }
}

/// A registration succeeds only by doing, in this order and nothing else:
/// checking that neither the e-mail address nor the username is taken,
/// hashing the password, storing the user with that hash, drawing a
/// verification token, reading the clock, storing the token for the new user,
/// mailing it to the new user, signing an access token for the new user and
/// storing a fresh refresh token for the new user; and it hands out that
/// user and the stored refresh token.
pub proof fn lemma_registration_success(data: RegisterUserData, replies: Seq<Reply>)
    ensures
        (Registration::CheckingEmail { data }).run(replies) matches Some(
            Ok((user, _, refresh_token)),
        ) ==> exists|
            password_hash: String,
            token: String,
            expires_at: Timestamp,
            secret: String,
        |
            (Registration::CheckingEmail { data }).performed(replies) == seq![
                Action::FindUserByEmail { email: data.email },
                Action::FindUserByUsername { username: data.username },
                Action::HashPassword { password: data.password },
                Action::CreateUser { username: data.username, email: data.email, password_hash },
                Action::GenerateVerificationToken,
                Action::ReadClock,
                Action::SaveEmailVerificationToken { user_id: user.id, token, expires_at },
                Action::SendVerificationEmail {
                    to_email: user.email,
                    username: user.username,
                    token,
                },
                Action::ReadJwtSecret,
                Action::IssueAccessToken { user_id: user.id, secret },
                Action::GenerateRefreshToken,
                Action::SaveRefreshToken { user_id: user.id, token: refresh_token },
            ],
{
    let s0 = Registration::CheckingEmail { data };
    if s0.run(replies) matches Some(Ok(_)) {
        let r1 = replies.drop_first();
        if let Step::Continue(s1, _) = s0.next(replies[0]) {
            assert(s0.run(replies) == s1.run(r1));
            assert(s0.performed(replies) == seq![s0.awaiting()] + s1.performed(r1));
            let r2 = r1.drop_first();
            if let Step::Continue(s2, _) = s1.next(r1[0]) {
                assert(s1.run(r1) == s2.run(r2));
                assert(s1.performed(r1) == seq![s1.awaiting()] + s2.performed(r2));
                let r3 = r2.drop_first();
                if let Step::Continue(s3, _) = s2.next(r2[0]) {
                    assert(s2.run(r2) == s3.run(r3));
                    assert(s2.performed(r2) == seq![s2.awaiting()] + s3.performed(r3));
                    let r4 = r3.drop_first();
                    if let Step::Continue(s4, _) = s3.next(r3[0]) {
                        assert(s3.run(r3) == s4.run(r4));
                        assert(s3.performed(r3) == seq![s3.awaiting()] + s4.performed(r4));
                        let r5 = r4.drop_first();
                        if let Step::Continue(s5, _) = s4.next(r4[0]) {
                            assert(s4.run(r4) == s5.run(r5));
                            assert(s4.performed(r4) == seq![s4.awaiting()] + s5.performed(r5));
                            let r6 = r5.drop_first();
                            if let Step::Continue(s6, _) = s5.next(r5[0]) {
                                assert(s5.run(r5) == s6.run(r6));
                                assert(s5.performed(r5) == seq![s5.awaiting()] + s6.performed(
                                    r6,
                                ));
                                let r7 = r6.drop_first();
                                if let Step::Continue(s7, _) = s6.next(r6[0]) {
                                    assert(s6.run(r6) == s7.run(r7));
                                    assert(s6.performed(r6) == seq![s6.awaiting()]
                                        + s7.performed(r7));
                                    let r8 = r7.drop_first();
                                    if let Step::Continue(s8, _) = s7.next(r7[0]) {
                                        assert(s7.run(r7) == s8.run(r8));
                                        assert(s7.performed(r7) == seq![s7.awaiting()]
                                            + s8.performed(r8));
                                        let created = s4->GeneratingVerification_user;
                                        let session = SessionIssue::ReadingSecret {
                                            user: created,
                                        };
                                        assert(s8 == Registration::OpeningSession { session });
                                        lemma_registration_session_runs_alone(session, r8);
                                        crate::service::session::lemma_session_stores_the_refresh_token(
                                            created,
                                            r8,
                                        );
                                        let password_hash = s3->Creating_password_hash;
                                        let token = s6->SavingVerification_token;
                                        let expires_at = s6->expires_at;
                                        let secret = choose|secret: String|
                                            session.performed(r8) == seq![
                                                Action::ReadJwtSecret,
                                                Action::IssueAccessToken {
                                                    user_id: created.id,
                                                    secret,
                                                },
                                                Action::GenerateRefreshToken,
                                                Action::SaveRefreshToken {
                                                    user_id: created.id,
                                                    token: session.run(r8)->Some_0->Ok_0.2,
                                                },
                                            ];
                                        assert(s0.performed(replies) =~= seq![
                                            Action::FindUserByEmail { email: data.email },
                                            Action::FindUserByUsername { username: data.username },
                                            Action::HashPassword { password: data.password },
                                            Action::CreateUser {
                                                username: data.username,
                                                email: data.email,
                                                password_hash,
                                            },
                                            Action::GenerateVerificationToken,
                                            Action::ReadClock,
                                            Action::SaveEmailVerificationToken {
                                                user_id: created.id,
                                                token,
                                                expires_at,
                                            },
                                            Action::SendVerificationEmail {
                                                to_email: created.email,
                                                username: created.username,
                                                token,
                                            },
                                            Action::ReadJwtSecret,
                                            Action::IssueAccessToken {
                                                user_id: created.id,
                                                secret,
                                            },
                                            Action::GenerateRefreshToken,
                                            Action::SaveRefreshToken {
                                                user_id: created.id,
                                                token: session.run(r8)->Some_0->Ok_0.2,
                                            },
                                        ]);
                                    }
                                }
                            }
                        }
                    }
                }
            }
        }
    }
}

} // verus!

verus! {

impl Registration {
    /// The states after the user was stored.
    pub open spec fn user_stored(self) -> bool {
        ||| self is GeneratingVerification
        ||| self is ReadingClock
        ||| self is SavingVerification
        ||| self is Notifying
        ||| self is OpeningSession
    }
}

/// Once the user is stored, a registration never asks to store a user again.
proof fn lemma_no_second_creation(s: Registration, replies: Seq<Reply>)
    requires
        s.user_stored(),
    ensures
        forall|k: int| 0 <= k < s.performed(replies).len() ==> !(#[trigger] s.performed(replies)[k] is CreateUser),
    decreases replies.len(),
{
    if replies.len() > 0 {
        if let Registration::OpeningSession { session } = s {
            assert(!(session.awaiting() is CreateUser));
        }
        match s.next(replies[0]) {
            Step::Continue(t, _) => {
                lemma_no_second_creation(t, replies.drop_first());
                let rest = t.performed(replies.drop_first());
                assert(s.performed(replies) == seq![s.awaiting()] + rest);
                assert forall|k: int| 0 <= k < s.performed(replies).len() implies !(
                #[trigger] s.performed(replies)[k] is CreateUser) by {
                    if k > 0 {
                        assert(s.performed(replies)[k] == rest[k - 1]);
                    }
                }
            },
            Step::Finish(_) => {},
        }
    }
}

/// Whatever the replies, a registration asks to store a user at most once,
/// only after the lookups of both the e-mail address and the username found
/// nobody, and then with exactly the requested username and e-mail address
/// and the hash that the hashing work returned.
pub proof fn lemma_user_created_only_when_both_free(data: RegisterUserData, replies: Seq<Reply>)
    ensures
        forall|k: int|
            0 <= k < (Registration::CheckingEmail { data }).performed(replies).len() && (#[trigger] (
            Registration::CheckingEmail { data }).performed(replies)[k] is CreateUser) ==> {
                &&& k == 3
                &&& replies[0] == Reply::User(None)
                &&& replies[1] == Reply::User(None)
                &&& replies[2] is Text
                &&& (Registration::CheckingEmail { data }).performed(replies)[k]
                    == Action::CreateUser {
                    username: data.username,
                    email: data.email,
                    password_hash: replies[2]->Text_0,
                }
            },
{
    let s0 = Registration::CheckingEmail { data };
    let p0 = s0.performed(replies);
    if replies.len() == 0 {
        return;
    }
    let r1 = replies.drop_first();
    match s0.next(replies[0]) {
        Step::Finish(_) => {
            assert(p0 == seq![s0.awaiting()]);
        },
        Step::Continue(s1, _) => {
            assert(replies[0] == Reply::User(None));
            let p1 = s1.performed(r1);
            assert(p0 == seq![s0.awaiting()] + p1);
            if r1.len() == 0 {
                assert(p1.len() == 0);
                return;
            }
            let r2 = r1.drop_first();
            match s1.next(r1[0]) {
                Step::Finish(_) => {
                    assert(p1 == seq![s1.awaiting()]);
                },
                Step::Continue(s2, _) => {
                    assert(r1[0] == Reply::User(None));
                    assert(replies[1] == r1[0]);
                    let p2 = s2.performed(r2);
                    assert(p1 == seq![s1.awaiting()] + p2);
                    if r2.len() == 0 {
                        assert(p2.len() == 0);
                        return;
                    }
                    let r3 = r2.drop_first();
                    match s2.next(r2[0]) {
                        Step::Finish(_) => {
                            assert(p2 == seq![s2.awaiting()]);
                        },
                        Step::Continue(s3, _) => {
                            assert(r2[0] is Text);
                            assert(replies[2] == r2[0]);
                            let p3 = s3.performed(r3);
                            assert(p2 == seq![s2.awaiting()] + p3);
                            assert(s3.awaiting() == Action::CreateUser {
                                username: data.username,
                                email: data.email,
                                password_hash: replies[2]->Text_0,
                            });
                            if r3.len() == 0 {
                                assert(p3.len() == 0);
                                return;
                            }
                            let r4 = r3.drop_first();
                            match s3.next(r3[0]) {
                                Step::Finish(_) => {
                                    assert(p3 == seq![s3.awaiting()]);
                                },
                                Step::Continue(s4, _) => {
                                    let p4 = s4.performed(r4);
                                    assert(p3 == seq![s3.awaiting()] + p4);
                                    lemma_no_second_creation(s4, r4);
                                    assert forall|k: int|
                                        0 <= k < p0.len() && (#[trigger] p0[k] is CreateUser)
                                        implies k == 3 by {
                                        if k > 3 {
                                            assert(p0[k] == p4[k - 4]);
                                        }
                                    }
                                },
                            }
                        },
                    }
                },
            }
        },
    }
}

/// A registration succeeds only when both lookups found nobody, the hashing,
/// the user's store, the token draw and the clock answered, storing and
/// mailing the verification token were both answered as succeeded, and the
/// session opened; it hands out exactly the user that the store returned,
/// with the access token signed and the refresh token drawn.
pub proof fn lemma_registration_success_replies(data: RegisterUserData, replies: Seq<Reply>)
    ensures
        (Registration::CheckingEmail { data }).run(replies) matches Some(
            Ok((user, access_token, refresh_token)),
        ) ==> {
            &&& replies[0] == Reply::User(None)
            &&& replies[1] == Reply::User(None)
            &&& replies[2] is Text
            &&& replies[3] == Reply::CreatedUser(user)
            &&& replies[4] is Text
            &&& replies[5] is Clock
            &&& replies[6] == Reply::Done
            &&& replies[7] == Reply::Done
            &&& replies[8] is Text
            &&& replies[9] == Reply::Text(access_token)
            &&& replies[10] == Reply::Text(refresh_token)
            &&& replies[11] == Reply::Done
        },
{
    let s0 = Registration::CheckingEmail { data };
    if s0.run(replies) matches Some(Ok(_)) {
        let r1 = replies.drop_first();
        if let Step::Continue(s1, _) = s0.next(replies[0]) {
            assert(s0.run(replies) == s1.run(r1));
            let r2 = r1.drop_first();
            if let Step::Continue(s2, _) = s1.next(r1[0]) {
                assert(s1.run(r1) == s2.run(r2));
                let r3 = r2.drop_first();
                if let Step::Continue(s3, _) = s2.next(r2[0]) {
                    assert(s2.run(r2) == s3.run(r3));
                    let r4 = r3.drop_first();
                    if let Step::Continue(s4, _) = s3.next(r3[0]) {
                        assert(s3.run(r3) == s4.run(r4));
                        let r5 = r4.drop_first();
                        if let Step::Continue(s5, _) = s4.next(r4[0]) {
                            assert(s4.run(r4) == s5.run(r5));
                            let r6 = r5.drop_first();
                            if let Step::Continue(s6, _) = s5.next(r5[0]) {
                                assert(s5.run(r5) == s6.run(r6));
                                let r7 = r6.drop_first();
                                if let Step::Continue(s7, _) = s6.next(r6[0]) {
                                    assert(s6.run(r6) == s7.run(r7));
                                    let r8 = r7.drop_first();
                                    if let Step::Continue(s8, _) = s7.next(r7[0]) {
                                        assert(s7.run(r7) == s8.run(r8));
                                        let created = s4->GeneratingVerification_user;
                                        let session = SessionIssue::ReadingSecret { user: created };
                                        lemma_registration_session_runs_alone(session, r8);
                                        crate::service::session::lemma_session_stores_the_refresh_token(
                                            created,
                                            r8,
                                        );
                                        crate::service::session::lemma_session_replies(created, r8);
                                        assert(r1[0] == replies[1]);
                                        assert(r2[0] == replies[2]);
                                        assert(r3[0] == replies[3]);
                                        assert(r4[0] == replies[4]);
                                        assert(r5[0] == replies[5]);
                                        assert(r6[0] == replies[6]);
                                        assert(r7[0] == replies[7]);
                                        assert(r8[0] == replies[8]);
                                        assert(r8[1] == replies[9]);
                                        assert(r8[2] == replies[10]);
                                        assert(r8[3] == replies[11]);
                                    }
                                }
                            }
                        }
                    }
                }
            }
        }
    }
}

/// An outside failure, whatever state it comes in, ends the registration
/// with an internal error that carries the failure's message.
pub proof fn lemma_registration_reports_outside_failures(s: Registration, message: String)
    ensures
        s.next(Reply::Failed(message)) == Step::<Registration, RegistrationOutcome>::Finish(
            Err(RegisterUserError::Unknown(Fault::Outside(message))),
        ),
{
}

} // verus!

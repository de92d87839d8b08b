use vstd::prelude::*;
use vstd::string::StringExecFns;
use crate::profile::{profile_record, profile_record_text, UserProfile};
use crate::remote::{remote_reason, RemoteError};
use crate::validate::{
    email_verdict, password_verdict, validate_email, validate_password, validation_message,
    PasswordPolicy, ValidationError,
};

verus! {

/// Where a field stands: not checked yet, accepted, or rejected with a reason.
#[derive(Debug, Clone, PartialEq, Eq)]
pub enum FieldStatus {
    Unvalidated,
    Valid,
    Invalid(String),
}

pub enum StatusView {
    Unvalidated,
    Valid,
    Invalid(Seq<char>),
}

impl View for FieldStatus {
    type V = StatusView;

    open spec fn view(&self) -> StatusView {
        match self {
            FieldStatus::Unvalidated => StatusView::Unvalidated,
            FieldStatus::Valid => StatusView::Valid,
            FieldStatus::Invalid(r) => StatusView::Invalid(r@),
        }
    }
}

/// An email and a password held for one login attempt.
#[derive(Debug, Clone, PartialEq, Eq)]
pub struct Credentials {
    pub email: String,
    pub password: String,
}

/// The step the flow is at.
#[derive(Debug, Clone, PartialEq, Eq)]
pub enum Stage {
    /// Waiting for input.
    Idle,
    /// Submitted; the remote email check stamped with the current generation
    /// decides whether these credentials go to login.
    ConfirmingEmail(Credentials),
    /// The login call is in flight.
    Submitting,
    /// The token is issued; the profile fetch is in flight.
    FetchingProfile,
    /// Everything is persisted and the redirect was issued.
    Redirected,
}

pub enum StageView {
    Idle,
    ConfirmingEmail(Seq<char>, Seq<char>),
    Submitting,
    FetchingProfile,
    Redirected,
}

impl View for Stage {
    type V = StageView;

    open spec fn view(&self) -> StageView {
        match self {
            Stage::Idle => StageView::Idle,
            Stage::ConfirmingEmail(c) => StageView::ConfirmingEmail(c.email@, c.password@),
            Stage::Submitting => StageView::Submitting,
            Stage::FetchingProfile => StageView::FetchingProfile,
            Stage::Redirected => StageView::Redirected,
        }
    }
}

/// What the caller must do after a transition, and then report back.
#[derive(Debug, Clone, PartialEq, Eq)]
pub enum Action {
    Nothing,
    /// Ask the server about `email`; report with `on_email_checked(generation, ..)`.
    CheckEmail { email: String, generation: u64 },
    /// Call login; report with `on_login_result`.
    Login(Credentials),
    /// Store `token` under `TOKEN_KEY`, then fetch the current user with it;
    /// report with `on_profile_result`.
    SaveTokenThenFetchProfile { token: String },
    /// Store `record` under `CURRENT_USER_KEY`, then go to `LANDING_PATH`.
    SaveProfileThenRedirect { record: String },
}

pub enum ActionView {
    Nothing,
    CheckEmail(Seq<char>, u64),
    Login(Seq<char>, Seq<char>),
    SaveTokenThenFetchProfile(Seq<char>),
    SaveProfileThenRedirect(Seq<char>),
}

impl View for Action {
    type V = ActionView;

    open spec fn view(&self) -> ActionView {
        match self {
            Action::Nothing => ActionView::Nothing,
            Action::CheckEmail { email, generation } => ActionView::CheckEmail(
                email@,
                *generation,
            ),
            Action::Login(c) => ActionView::Login(c.email@, c.password@),
            Action::SaveTokenThenFetchProfile { token } => ActionView::SaveTokenThenFetchProfile(
                token@,
            ),
            Action::SaveProfileThenRedirect { record } => ActionView::SaveProfileThenRedirect(
                record@,
            ),
        }
    }
}

pub const TOKEN_KEY: &'static str = "token";

pub const CURRENT_USER_KEY: &'static str = "current_user";

pub const LANDING_PATH: &'static str = "/main/user";

/// The login flow's state, read by the presentation after every transition.
pub struct LoginFlow {
    pub email_status: FieldStatus,
    pub password_status: FieldStatus,
    /// The global failure message; empty when there is none.
    pub failure: String,
    /// Stamp of the latest remote email check that was started.
    pub email_generation: u64,
    pub stage: Stage,
    pub policy: PasswordPolicy,
}

pub struct FlowView {
    pub email: StatusView,
    pub password: StatusView,
    pub failure: Seq<char>,
    pub generation: u64,
    pub stage: StageView,
    pub policy: PasswordPolicy,
}

impl View for LoginFlow {
    type V = FlowView;

    open spec fn view(&self) -> FlowView {
        FlowView {
            email: self.email_status@,
            password: self.password_status@,
            failure: self.failure@,
            generation: self.email_generation,
            stage: self.stage@,
            policy: self.policy,
        }
    }
}

pub open spec fn rejected(e: ValidationError) -> StatusView {
    StatusView::Invalid(validation_message(e))
}

/// A pending submission is dropped once either field is edited again.
pub open spec fn stage_after_edit(st: StageView) -> StageView {
    match st {
        StageView::ConfirmingEmail(_, _) => StageView::Idle,
        _ => st,
    }
}

pub open spec fn after_email_commit(s: FlowView, email: Seq<char>) -> (FlowView, ActionView) {
    match email_verdict(email) {
        Err(e) => (
            FlowView { email: rejected(e), stage: stage_after_edit(s.stage), ..s },
            ActionView::Nothing,
        ),
        Ok(_) => (
            FlowView {
                generation: (s.generation + 1) as u64,
                stage: stage_after_edit(s.stage),
                ..s
            },
            ActionView::CheckEmail(email, (s.generation + 1) as u64),
        ),
    }
}

pub open spec fn password_status_of(pwd: Seq<char>, policy: PasswordPolicy) -> StatusView {
    match password_verdict(pwd, policy) {
        Err(e) => rejected(e),
        Ok(_) => StatusView::Valid,
    }
}

pub open spec fn after_password_commit(s: FlowView, pwd: Seq<char>) -> FlowView {
    FlowView {
        password: password_status_of(pwd, s.policy),
        stage: stage_after_edit(s.stage),
        ..s
    }
}

pub open spec fn busy(st: StageView) -> bool {
    st is Submitting || st is FetchingProfile || st is Redirected
}

pub open spec fn after_submit(s: FlowView, email: Seq<char>, pwd: Seq<char>) -> (
    FlowView,
    ActionView,
) {
    if busy(s.stage) {
        (s, ActionView::Nothing)
    } else {
        match email_verdict(email) {
            Err(e) => (
                FlowView { email: rejected(e), stage: StageView::Idle, ..s },
                ActionView::Nothing,
            ),
            Ok(_) => match password_verdict(pwd, s.policy) {
                Err(e) => (
                    FlowView { password: rejected(e), stage: StageView::Idle, ..s },
                    ActionView::Nothing,
                ),
                Ok(_) => (
                    FlowView {
                        password: StatusView::Valid,
                        generation: (s.generation + 1) as u64,
                        stage: StageView::ConfirmingEmail(email, pwd),
                        ..s
                    },
                    ActionView::CheckEmail(email, (s.generation + 1) as u64),
                ),
            },
        }
    }
}

pub open spec fn after_email_checked(
    s: FlowView,
    generation: u64,
    outcome: Result<(), RemoteError>,
) -> (FlowView, ActionView) {
    if generation != s.generation {
        (s, ActionView::Nothing)
    } else {
        match outcome {
            Ok(_) => match s.stage {
                StageView::ConfirmingEmail(e, p) => (
                    FlowView { email: StatusView::Valid, stage: StageView::Submitting, ..s },
                    ActionView::Login(e, p),
                ),
                _ => (FlowView { email: StatusView::Valid, ..s }, ActionView::Nothing),
            },
            Err(err) => (
                FlowView {
                    email: StatusView::Invalid(remote_reason(err)),
                    stage: stage_after_edit(s.stage),
                    ..s
                },
                ActionView::Nothing,
            ),
        }
    }
}

pub open spec fn after_login(s: FlowView, outcome: Result<String, RemoteError>) -> (
    FlowView,
    ActionView,
) {
    if !(s.stage is Submitting) {
        (s, ActionView::Nothing)
    } else {
        match outcome {
            Ok(token) => (
                FlowView { stage: StageView::FetchingProfile, ..s },
                ActionView::SaveTokenThenFetchProfile(token@),
            ),
            Err(err) => (
                FlowView { failure: remote_reason(err), stage: StageView::Idle, ..s },
                ActionView::Nothing,
            ),
        }
    }
}

pub open spec fn profile_failure(err: RemoteError) -> Seq<char> {
    "failed to load profile: "@ + remote_reason(err)
}

pub open spec fn after_profile(s: FlowView, outcome: Result<UserProfile, RemoteError>) -> (
    FlowView,
    ActionView,
) {
    if !(s.stage is FetchingProfile) {
        (s, ActionView::Nothing)
    } else {
        match outcome {
            Ok(p) => (
                FlowView { stage: StageView::Redirected, ..s },
                ActionView::SaveProfileThenRedirect(profile_record_text(p)),
            ),
            Err(err) => (
                FlowView { failure: profile_failure(err), stage: StageView::Idle, ..s },
                ActionView::Nothing,
            ),
        }
    }
}

fn rejected_status(e: ValidationError) -> (r: FieldStatus)
    ensures
        r@ == rejected(e),
{
    FieldStatus::Invalid(e.message())
}

impl LoginFlow {
    /// A fresh flow: both fields unchecked, no failure, nothing in flight.
    pub fn new(policy: PasswordPolicy) -> (r: LoginFlow)
        ensures
            r@ == (FlowView {
                email: StatusView::Unvalidated,
                password: StatusView::Unvalidated,
                failure: Seq::empty(),
                generation: 0,
                stage: StageView::Idle,
                policy,
            }),
    {
        LoginFlow {
            email_status: FieldStatus::Unvalidated,
            password_status: FieldStatus::Unvalidated,
            failure: String::new(),
            email_generation: 0,
            stage: Stage::Idle,
            policy,
        }
    }

    fn drop_pending(&mut self)
        ensures
            final(self)@ == (FlowView { stage: stage_after_edit(old(self)@.stage), ..old(self)@ }),
    {
        if let Stage::ConfirmingEmail(_) = self.stage {
            self.stage = Stage::Idle;
        }
    }

    /// The email field's value was committed: check its format, and when it
    /// passes start a remote check stamped with a new generation.
    pub fn on_email_commit(&mut self, email: &str) -> (a: Action)
        requires
            old(self).email_generation < u64::MAX,
        ensures
            (final(self)@, a@) == after_email_commit(old(self)@, email@),
    {
        self.drop_pending();
        match validate_email(email) {
            Err(e) => {
                self.email_status = rejected_status(e);
                Action::Nothing
            },
            Ok(()) => {
                self.email_generation = self.email_generation + 1;
                Action::CheckEmail { email: String::from_str(email), generation: self.email_generation }
            },
        }
    }

    /// The password field's value was committed: its status is settled at once.
    pub fn on_password_commit(&mut self, password: &str)
        ensures
            final(self)@ == after_password_commit(old(self)@, password@),
    {
        self.drop_pending();
        match validate_password(password, &self.policy) {
            Err(e) => {
                self.password_status = rejected_status(e);
            },
            Ok(()) => {
                self.password_status = FieldStatus::Valid;
            },
        }
    }

    /// Explicit submit: both formats are checked again, and when both pass a
    /// fresh remote email check decides whether the credentials go to login.
    pub fn on_submit(&mut self, email: &str, password: &str) -> (a: Action)
        requires
            old(self).email_generation < u64::MAX,
        ensures
            (final(self)@, a@) == after_submit(old(self)@, email@, password@),
    {
        match self.stage {
            Stage::Submitting | Stage::FetchingProfile | Stage::Redirected => {
                return Action::Nothing;
            },
            _ => {},
        }
        match validate_email(email) {
            Err(e) => {
                self.email_status = rejected_status(e);
                self.stage = Stage::Idle;
                Action::Nothing
            },
            Ok(()) => match validate_password(password, &self.policy) {
                Err(e) => {
                    self.password_status = rejected_status(e);
                    self.stage = Stage::Idle;
                    Action::Nothing
                },
                Ok(()) => {
                    self.password_status = FieldStatus::Valid;
                    self.email_generation = self.email_generation + 1;
                    self.stage = Stage::ConfirmingEmail(
                        Credentials {
                            email: String::from_str(email),
                            password: String::from_str(password),
                        },
                    );
                    Action::CheckEmail { email: String::from_str(email), generation: self.email_generation }
                },
            },
        }
    }

    /// The remote email check stamped `generation` came back. Unless it is
    /// the latest one started, it is discarded.
    pub fn on_email_checked(&mut self, generation: u64, outcome: Result<(), RemoteError>) -> (a:
        Action)
        ensures
            (final(self)@, a@) == after_email_checked(old(self)@, generation, outcome),
    {
        if generation != self.email_generation {
            return Action::Nothing;
        }
        match outcome {
            Ok(()) => {
                self.email_status = FieldStatus::Valid;
                let a = match &self.stage {
                    Stage::ConfirmingEmail(c) => Action::Login(
                        Credentials { email: c.email.clone(), password: c.password.clone() },
                    ),
                    _ => Action::Nothing,
                };
                if let Stage::ConfirmingEmail(_) = self.stage {
                    self.stage = Stage::Submitting;
                }
                a
            },
            Err(err) => {
                self.email_status = FieldStatus::Invalid(err.reason());
                self.drop_pending();
                Action::Nothing
            },
        }
    }

    /// The login call came back, with the session token on success.
    pub fn on_login_result(&mut self, outcome: Result<String, RemoteError>) -> (a: Action)
        ensures
            (final(self)@, a@) == after_login(old(self)@, outcome),
    {
        if !matches!(self.stage, Stage::Submitting) {
            return Action::Nothing;
        }
        match outcome {
            Ok(token) => {
                self.stage = Stage::FetchingProfile;
                Action::SaveTokenThenFetchProfile { token }
            },
            Err(err) => {
                self.failure = err.reason();
                self.stage = Stage::Idle;
                Action::Nothing
            },
        }
    }

    /// The profile fetch came back.
    pub fn on_profile_result(&mut self, outcome: Result<UserProfile, RemoteError>) -> (a: Action)
        ensures
            (final(self)@, a@) == after_profile(old(self)@, outcome),
    {
        if !matches!(self.stage, Stage::FetchingProfile) {
            return Action::Nothing;
        }
        match outcome {
            Ok(p) => {
                self.stage = Stage::Redirected;
                Action::SaveProfileThenRedirect { record: profile_record(&p) }
            },
            Err(err) => {
                proof {
                    reveal_strlit("failed to load profile: ");
                }
                let mut m = String::from_str("failed to load profile: ");
                let r = err.reason();
                m.append(r.as_str());
                self.failure = m;
                self.stage = Stage::Idle;
                Action::Nothing
            },
        }
    }
}

} // verus!

use vstd::prelude::*;
use crate::flow::{
    after_email_checked, after_email_commit, after_login, after_password_commit, after_profile,
    after_submit, rejected, ActionView, FlowView, StageView, StatusView,
};
use crate::profile::UserProfile;
use crate::remote::{remote_reason, RemoteError};
use crate::validate::{
    email_verdict, is_blank, password_verdict, ValidationError,
};

verus! {

/// An email with no `@` in it is rejected as malformed, unless it is blank.
pub proof fn lemma_email_without_at(email: Seq<char>)
    requires
        !is_blank(email),
        forall|i: int| 0 <= i < email.len() ==> email[i] != '@',
    ensures
        email_verdict(email) == Err::<(), ValidationError>(ValidationError::MalformedEmail),
{
}

/// An email whose part after its `@` holds no dot is rejected as malformed,
/// unless it is blank.
pub proof fn lemma_email_without_domain_dot(email: Seq<char>, at: int)
    requires
        !is_blank(email),
        0 <= at < email.len(),
        email[at] == '@',
        forall|i: int| at < i < email.len() ==> email[i] != '.',
    ensures
        email_verdict(email) == Err::<(), ValidationError>(ValidationError::MalformedEmail),
{
}

/// The empty string is rejected as an empty email.
pub proof fn lemma_empty_email()
    ensures
        email_verdict(Seq::empty()) == Err::<(), ValidationError>(ValidationError::EmptyEmail),
{
}

/// An email that fails its format check is shown as rejected on its field
/// and starts no remote call, whether committed or submitted.
pub proof fn lemma_rejected_email_is_not_sent(s: FlowView, email: Seq<char>, password: Seq<char>)
    requires
        email_verdict(email) is Err,
    ensures
        after_email_commit(s, email).1 == ActionView::Nothing,
        after_email_commit(s, email).0.email == rejected(email_verdict(email)->Err_0),
        after_email_commit(s, email).0.password == s.password,
        after_submit(s, email, password).1 == ActionView::Nothing,
{
}

/// A blank password is rejected as empty, on commit and on submit, and
/// nothing is sent.
pub proof fn lemma_empty_password(s: FlowView, email: Seq<char>, password: Seq<char>)
    requires
        is_blank(password),
    ensures
        password_verdict(password, s.policy) == Err::<(), ValidationError>(
            ValidationError::EmptyPassword,
        ),
        after_password_commit(s, password).password == rejected(ValidationError::EmptyPassword),
        after_submit(s, email, password).1 == ActionView::Nothing,
{
}

/// A response whose stamp is older than the field's generation changes
/// nothing and triggers nothing.
pub proof fn lemma_stale_response_discarded(
    s: FlowView,
    generation: u64,
    outcome: Result<(), RemoteError>,
)
    requires
        generation < s.generation,
    ensures
        after_email_checked(s, generation, outcome) == (s, ActionView::Nothing),
{
}

pub open spec fn checked_status(outcome: Result<(), RemoteError>) -> StatusView {
    match outcome {
        Ok(_) => StatusView::Valid,
        Err(e) => StatusView::Invalid(remote_reason(e)),
    }
}

/// Two email checks started one after the other: whichever order their
/// responses come back in, the field ends up showing the second's result.
pub proof fn lemma_latest_check_wins(
    s: FlowView,
    first: Seq<char>,
    second: Seq<char>,
    first_outcome: Result<(), RemoteError>,
    second_outcome: Result<(), RemoteError>,
)
    requires
        s.generation + 2 <= u64::MAX,
        email_verdict(first) is Ok,
        email_verdict(second) is Ok,
    ensures
        ({
            let (s1, a1) = after_email_commit(s, first);
            let (s2, a2) = after_email_commit(s1, second);
            let g1 = a1->CheckEmail_1;
            let g2 = a2->CheckEmail_1;
            let s3 = after_email_checked(s2, g2, second_outcome).0;
            let s4 = after_email_checked(s3, g1, first_outcome).0;
            let t3 = after_email_checked(s2, g1, first_outcome).0;
            let t4 = after_email_checked(t3, g2, second_outcome).0;
            &&& a1 is CheckEmail
            &&& a2 is CheckEmail
            &&& g1 < g2
            &&& s4.email == checked_status(second_outcome)
            &&& t4.email == checked_status(second_outcome)
        }),
{
}

/// Credentials wait for the email check only while the password is valid.
pub open spec fn pending_consistent(s: FlowView) -> bool {
    s.stage is ConfirmingEmail ==> s.password is Valid
}

/// Every transition keeps a pending submission backed by a valid password.
pub proof fn lemma_transitions_keep_pending_consistent(
    s: FlowView,
    email: Seq<char>,
    password: Seq<char>,
    generation: u64,
    checked: Result<(), RemoteError>,
    login: Result<String, RemoteError>,
    profile: Result<UserProfile, RemoteError>,
)
    requires
        pending_consistent(s),
    ensures
        pending_consistent(after_email_commit(s, email).0),
        pending_consistent(after_password_commit(s, password)),
        pending_consistent(after_submit(s, email, password).0),
        pending_consistent(after_email_checked(s, generation, checked).0),
        pending_consistent(after_login(s, login).0),
        pending_consistent(after_profile(s, profile).0),
{
}

/// Credentials go to login only once both fields are valid, and they are
/// the ones that were submitted.
pub proof fn lemma_login_only_with_valid_fields(
    s: FlowView,
    generation: u64,
    outcome: Result<(), RemoteError>,
)
    requires
        pending_consistent(s),
    ensures
        ({
            let (t, a) = after_email_checked(s, generation, outcome);
            a is Login ==> {
                &&& t.email is Valid
                &&& t.password is Valid
                &&& s.stage == StageView::ConfirmingEmail(a->Login_0, a->Login_1)
            }
        }),
{
}

/// A failed login leaves a failure message, persists nothing, and keeps
/// both fields as they were.
pub proof fn lemma_failed_login(s: FlowView, err: RemoteError)
    requires
        s.stage is Submitting,
    ensures
        ({
            let (t, a) = after_login(s, Err(err));
            &&& a == ActionView::Nothing
            &&& t.failure == remote_reason(err)
            &&& t.email == s.email
            &&& t.password == s.password
            &&& t.stage == StageView::Idle
        }),
{
}

} // verus!

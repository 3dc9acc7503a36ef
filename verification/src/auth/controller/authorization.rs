//! Signing in by name: the account must exist, must not be locked, and the
//! password must match; a wrong password is recorded against the account.
use vstd::prelude::*;
use crate::auth::error::Error;
use crate::auth::model::{Credentials, NameRequest};
use crate::auth::password::{verification_outcome, verification_result};
use crate::auth::protocol::{Answer, Step, Work};

verus! {

/// How a sign-in ends.
#[derive(Debug, Clone, PartialEq, Eq)]
pub enum Results {
    /// The password matches these credentials.
    Valid(Credentials),
    /// The account is locked.
    Suspended,
    /// The password does not match.
    Invalid,
    /// No credentials have that name.
    NoRecord,
}

/// Where a sign-in stands.
#[derive(Debug, PartialEq, Eq)]
pub enum AuthorizeStage {
    /// Waiting for the credentials with the request's name.
    AwaitRecord,
    /// Waiting for the check of the password against these credentials.
    AwaitVerification(Credentials),
    /// Waiting for the failed sign-in to be recorded.
    AwaitSuspension,
    Finished,
}

/// A sign-in in progress, at time `now`.
#[derive(Debug, PartialEq, Eq)]
pub struct Authorize {
    pub request: NameRequest,
    pub now: u64,
    pub stage: AuthorizeStage,
}

/// The next stage and step of a sign-in, given the answer to its last work.
pub open spec fn authorize_transition(
    request: NameRequest,
    now: u64,
    stage: AuthorizeStage,
    answer: Answer,
) -> (AuthorizeStage, Step<Results>) {
    match stage {
        AuthorizeStage::AwaitRecord => match answer {
            Answer::Credentials(None) => (AuthorizeStage::Finished, Step::Finish(Ok(Results::NoRecord))),
            Answer::Credentials(Some(record)) => match record.suspension(now) {
                Err(e) => (AuthorizeStage::Finished, Step::Finish(Err(e))),
                Ok(true) => (AuthorizeStage::Finished, Step::Finish(Ok(Results::Suspended))),
                Ok(false) => (
                    AuthorizeStage::AwaitVerification(record),
                    Step::Perform(Work::VerifyPassword { password: request.password, hash: record.hash }),
                ),
            },
            Answer::Failed(e) => (AuthorizeStage::Finished, Step::Finish(Err(e))),
            _ => (AuthorizeStage::Finished, Step::Finish(Err(Error::UnexpectedAnswer))),
        },
        AuthorizeStage::AwaitVerification(record) => match answer {
            Answer::Verified(verified) => match verification_result(verified) {
                Err(e) => (AuthorizeStage::Finished, Step::Finish(Err(e))),
                Ok(true) => (AuthorizeStage::Finished, Step::Finish(Ok(Results::Valid(record)))),
                Ok(false) => (AuthorizeStage::AwaitSuspension, Step::Perform(Work::Suspend(record.id))),
            },
            Answer::Failed(e) => (AuthorizeStage::Finished, Step::Finish(Err(e))),
            _ => (AuthorizeStage::Finished, Step::Finish(Err(Error::UnexpectedAnswer))),
        },
        AuthorizeStage::AwaitSuspension => match answer {
            Answer::Suspended => (AuthorizeStage::Finished, Step::Finish(Ok(Results::Invalid))),
            Answer::Failed(e) => (AuthorizeStage::Finished, Step::Finish(Err(e))),
            _ => (AuthorizeStage::Finished, Step::Finish(Err(Error::UnexpectedAnswer))),
        },
        AuthorizeStage::Finished => (AuthorizeStage::Finished, Step::Finish(Err(Error::UnexpectedAnswer))),
    }
}

/// Starts a sign-in: first the credentials with the request's name are
/// looked up.
pub fn authorize(request: NameRequest, now: u64) -> (started: (Authorize, Step<Results>))
    ensures
        started.0.request == request,
        started.0.now == now,
        started.0.stage is AwaitRecord,
        started.1 == Step::<Results>::Perform(Work::CredentialsByName(request.name)),
{
    let name = request.name.clone();
    (Authorize { request, now, stage: AuthorizeStage::AwaitRecord }, Step::Perform(Work::CredentialsByName(name)))
}

impl Authorize {
    /// Decides on the answer to the last work asked for.
    pub fn resume(self, answer: Answer) -> (next: (Authorize, Step<Results>))
        ensures
            next.0.request == self.request,
            next.0.now == self.now,
            (next.0.stage, next.1) == authorize_transition(self.request, self.now, self.stage, answer),
    {
        let Authorize { request, now, stage } = self;
        let ghost request_view = request;
        let (stage, step) = match stage {
            AuthorizeStage::AwaitRecord => match answer {
                Answer::Credentials(None) => (AuthorizeStage::Finished, Step::Finish(Ok(Results::NoRecord))),
                Answer::Credentials(Some(record)) => match record.suspended(now) {
                    Err(e) => (AuthorizeStage::Finished, Step::Finish(Err(e))),
                    Ok(true) => (AuthorizeStage::Finished, Step::Finish(Ok(Results::Suspended))),
                    Ok(false) => {
                        let work = Work::VerifyPassword {
                            password: request.password.clone(),
                            hash: record.hash.clone(),
                        };
                        (AuthorizeStage::AwaitVerification(record), Step::Perform(work))
                    },
                },
                Answer::Failed(e) => (AuthorizeStage::Finished, Step::Finish(Err(e))),
                _ => (AuthorizeStage::Finished, Step::Finish(Err(Error::UnexpectedAnswer))),
            },
            AuthorizeStage::AwaitVerification(record) => match answer {
                Answer::Verified(verified) => match verification_outcome(verified) {
                    Err(e) => (AuthorizeStage::Finished, Step::Finish(Err(e))),
                    Ok(true) => (AuthorizeStage::Finished, Step::Finish(Ok(Results::Valid(record)))),
                    Ok(false) => (AuthorizeStage::AwaitSuspension, Step::Perform(Work::Suspend(record.id))),
                },
                Answer::Failed(e) => (AuthorizeStage::Finished, Step::Finish(Err(e))),
                _ => (AuthorizeStage::Finished, Step::Finish(Err(Error::UnexpectedAnswer))),
            },
            AuthorizeStage::AwaitSuspension => match answer {
                Answer::Suspended => (AuthorizeStage::Finished, Step::Finish(Ok(Results::Invalid))),
                Answer::Failed(e) => (AuthorizeStage::Finished, Step::Finish(Err(e))),
                _ => (AuthorizeStage::Finished, Step::Finish(Err(Error::UnexpectedAnswer))),
            },
            AuthorizeStage::Finished => (AuthorizeStage::Finished, Step::Finish(Err(Error::UnexpectedAnswer))),
        };
        (Authorize { request, now, stage }, step)
    }
}

/// A sign-in answers `Valid` only with the credentials whose password check
/// just succeeded.
pub proof fn law_valid_only_after_a_matching_password(
    request: NameRequest,
    now: u64,
    stage: AuthorizeStage,
    answer: Answer,
    credentials: Credentials,
)
    requires
        authorize_transition(request, now, stage, answer).1 == Step::<Results>::Finish(
            Ok(Results::Valid(credentials)),
        ),
    ensures
        stage == AuthorizeStage::AwaitVerification(credentials),
        answer matches Answer::Verified(verified) && verification_result(verified) == Ok::<
            bool,
            Error,
        >(true),
{
}

/// A password is checked only for credentials that were found under the
/// request's name and are not locked, and it is the request's password that
/// is checked against their hash.
pub proof fn law_only_unlocked_records_are_checked(
    request: NameRequest,
    now: u64,
    stage: AuthorizeStage,
    answer: Answer,
    password: String,
    hash: String,
)
    requires
        authorize_transition(request, now, stage, answer).1 == Step::<Results>::Perform(
            Work::VerifyPassword { password, hash },
        ),
    ensures
        stage is AwaitRecord,
        answer matches Answer::Credentials(Some(record)) && record.suspension(now) == Ok::<bool, Error>(false)
            && hash == record.hash,
        password == request.password,
{
}

/// A password that does not match leads to recording the failed sign-in
/// against the account.
pub proof fn law_failed_check_is_recorded(
    request: NameRequest,
    now: u64,
    record: Credentials,
    verified: Result<bool, crate::auth::password::VerifyFailure>,
)
    requires
        verification_result(verified) == Ok::<bool, Error>(false),
    ensures
        authorize_transition(
            request,
            now,
            AuthorizeStage::AwaitVerification(record),
            Answer::Verified(verified),
        ) == (AuthorizeStage::AwaitSuspension, Step::<Results>::Perform(Work::Suspend(record.id))),
{
}

/// A sign-in is answered `Invalid` only once the failed sign-in has been
/// recorded.
pub proof fn law_invalid_only_after_recording(
    request: NameRequest,
    now: u64,
    stage: AuthorizeStage,
    answer: Answer,
)
    requires
        authorize_transition(request, now, stage, answer).1 == Step::<Results>::Finish(
            Ok(Results::Invalid),
        ),
    ensures
        stage is AwaitSuspension,
        answer is Suspended,
{
}

/// A sign-in waits on the check of some credentials only right after it
/// asked to check the request's password against their hash; with
/// `law_valid_only_after_a_matching_password`, `Valid` names only
/// credentials whose hash the request's password matched.
pub proof fn law_checks_are_asked_before_they_are_awaited(
    request: NameRequest,
    now: u64,
    stage: AuthorizeStage,
    answer: Answer,
    record: Credentials,
)
    requires
        authorize_transition(request, now, stage, answer).0 == AuthorizeStage::AwaitVerification(record),
    ensures
        authorize_transition(request, now, stage, answer).1 == Step::<Results>::Perform(
            Work::VerifyPassword { password: request.password, hash: record.hash },
        ),
{
}

} // verus!

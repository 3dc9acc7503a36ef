//! Deleting credentials: the owner proves the account by its email and
//! password; a wrong password is recorded against the account.
use vstd::prelude::*;
use crate::auth::error::Error;
use crate::auth::model::{Credentials, EmailRequest};
use crate::auth::password::{verification_outcome, verification_result, VerifyFailure};
use crate::auth::protocol::{Answer, Step, Work};

verus! {

/// How a deletion ends.
#[derive(Debug, Clone, Copy, PartialEq, Eq, Structural)]
pub enum DeleteResults {
    Success,
    NotFound,
    Suspended,
    Unauthorized,
}

/// Where a deletion stands.
#[derive(Debug, PartialEq, Eq)]
pub enum DeleteStage {
    /// Waiting for the credentials with the request's email.
    AwaitRecord,
    /// Waiting for the check of the password against these credentials.
    AwaitVerification(Credentials),
    /// Waiting for the credentials to be marked as deleted.
    AwaitMark,
    /// Waiting for the failed attempt to be recorded.
    AwaitSuspension,
    Finished,
}

/// A deletion in progress, at time `now`.
#[derive(Debug, PartialEq, Eq)]
pub struct Delete {
    pub request: EmailRequest,
    pub now: u64,
    pub stage: DeleteStage,
}

/// The next stage and step of a deletion, given the answer to its last
/// work.
pub open spec fn delete_transition(
    request: EmailRequest,
    now: u64,
    stage: DeleteStage,
    answer: Answer,
) -> (DeleteStage, Step<DeleteResults>) {
    match stage {
        DeleteStage::AwaitRecord => match answer {
            Answer::Credentials(None) => (DeleteStage::Finished, Step::Finish(Ok(DeleteResults::NotFound))),
            Answer::Credentials(Some(record)) => match record.suspension(now) {
                Err(e) => (DeleteStage::Finished, Step::Finish(Err(e))),
                Ok(true) => (DeleteStage::Finished, Step::Finish(Ok(DeleteResults::Suspended))),
                Ok(false) => (
                    DeleteStage::AwaitVerification(record),
                    Step::Perform(Work::VerifyPassword { password: request.password, hash: record.hash }),
                ),
            },
            Answer::Failed(e) => (DeleteStage::Finished, Step::Finish(Err(e))),
            _ => (DeleteStage::Finished, Step::Finish(Err(Error::UnexpectedAnswer))),
        },
        DeleteStage::AwaitVerification(record) => match answer {
            Answer::Verified(verified) => match verification_result(verified) {
                Err(e) => (DeleteStage::Finished, Step::Finish(Err(e))),
                Ok(true) => (DeleteStage::AwaitMark, Step::Perform(Work::MarkAsDeletedByEmail(request.email))),
                Ok(false) => (DeleteStage::AwaitSuspension, Step::Perform(Work::Suspend(record.id))),
            },
            Answer::Failed(e) => (DeleteStage::Finished, Step::Finish(Err(e))),
            _ => (DeleteStage::Finished, Step::Finish(Err(Error::UnexpectedAnswer))),
        },
        DeleteStage::AwaitMark => match answer {
            Answer::Marked(_) => (DeleteStage::Finished, Step::Finish(Ok(DeleteResults::Success))),
            Answer::Failed(e) => (DeleteStage::Finished, Step::Finish(Err(e))),
            _ => (DeleteStage::Finished, Step::Finish(Err(Error::UnexpectedAnswer))),
        },
        DeleteStage::AwaitSuspension => match answer {
            Answer::Suspended => (DeleteStage::Finished, Step::Finish(Ok(DeleteResults::Unauthorized))),
            Answer::Failed(e) => (DeleteStage::Finished, Step::Finish(Err(e))),
            _ => (DeleteStage::Finished, Step::Finish(Err(Error::UnexpectedAnswer))),
        },
        DeleteStage::Finished => (DeleteStage::Finished, Step::Finish(Err(Error::UnexpectedAnswer))),
    }
}

/// Starts a deletion: first the credentials with the request's email are
/// looked up.
pub fn delete(request: EmailRequest, now: u64) -> (started: (Delete, Step<DeleteResults>))
    ensures
        started.0.request == request,
        started.0.now == now,
        started.0.stage is AwaitRecord,
        started.1 == Step::<DeleteResults>::Perform(Work::CredentialsByEmail(request.email)),
{
    let email = request.email.clone();
    (Delete { request, now, stage: DeleteStage::AwaitRecord }, Step::Perform(Work::CredentialsByEmail(email)))
}

impl Delete {
    /// Decides on the answer to the last work asked for.
    pub fn resume(self, answer: Answer) -> (next: (Delete, Step<DeleteResults>))
        ensures
            next.0.request == self.request,
            next.0.now == self.now,
            (next.0.stage, next.1) == delete_transition(self.request, self.now, self.stage, answer),
    {
        let Delete { request, now, stage } = self;
        let (stage, step) = match stage {
            DeleteStage::AwaitRecord => match answer {
                Answer::Credentials(None) => (DeleteStage::Finished, Step::Finish(Ok(DeleteResults::NotFound))),
                Answer::Credentials(Some(record)) => match record.suspended(now) {
                    Err(e) => (DeleteStage::Finished, Step::Finish(Err(e))),
                    Ok(true) => (DeleteStage::Finished, Step::Finish(Ok(DeleteResults::Suspended))),
                    Ok(false) => {
                        let work = Work::VerifyPassword {
                            password: request.password.clone(),
                            hash: record.hash.clone(),
                        };
                        (DeleteStage::AwaitVerification(record), Step::Perform(work))
                    },
                },
                Answer::Failed(e) => (DeleteStage::Finished, Step::Finish(Err(e))),
                _ => (DeleteStage::Finished, Step::Finish(Err(Error::UnexpectedAnswer))),
            },
            DeleteStage::AwaitVerification(record) => match answer {
                Answer::Verified(verified) => match verification_outcome(verified) {
                    Err(e) => (DeleteStage::Finished, Step::Finish(Err(e))),
                    Ok(true) => {
                        let email = request.email.clone();
                        (DeleteStage::AwaitMark, Step::Perform(Work::MarkAsDeletedByEmail(email)))
                    },
                    Ok(false) => (DeleteStage::AwaitSuspension, Step::Perform(Work::Suspend(record.id))),
                },
                Answer::Failed(e) => (DeleteStage::Finished, Step::Finish(Err(e))),
                _ => (DeleteStage::Finished, Step::Finish(Err(Error::UnexpectedAnswer))),
            },
            DeleteStage::AwaitMark => match answer {
                Answer::Marked(_) => (DeleteStage::Finished, Step::Finish(Ok(DeleteResults::Success))),
                Answer::Failed(e) => (DeleteStage::Finished, Step::Finish(Err(e))),
                _ => (DeleteStage::Finished, Step::Finish(Err(Error::UnexpectedAnswer))),
            },
            DeleteStage::AwaitSuspension => match answer {
                Answer::Suspended => (DeleteStage::Finished, Step::Finish(Ok(DeleteResults::Unauthorized))),
                Answer::Failed(e) => (DeleteStage::Finished, Step::Finish(Err(e))),
                _ => (DeleteStage::Finished, Step::Finish(Err(Error::UnexpectedAnswer))),
            },
            DeleteStage::Finished => (DeleteStage::Finished, Step::Finish(Err(Error::UnexpectedAnswer))),
        };
        (Delete { request, now, stage }, step)
    }
}

/// Credentials are marked as deleted only right after the request's
/// password matched them, and it is the request's email that is marked.
pub proof fn law_deleted_only_after_a_matching_password(
    request: EmailRequest,
    now: u64,
    stage: DeleteStage,
    answer: Answer,
    email: String,
)
    requires
        delete_transition(request, now, stage, answer).1 == Step::<DeleteResults>::Perform(
            Work::MarkAsDeletedByEmail(email),
        ),
    ensures
        stage is AwaitVerification,
        answer matches Answer::Verified(verified) && verification_result(verified) == Ok::<bool, Error>(
            true,
        ),
        email == request.email,
{
}

/// A password is checked only for credentials that were found under the
/// request's email and are not locked, and it is the request's password
/// that is checked against their hash.
pub proof fn law_only_unlocked_records_are_checked(
    request: EmailRequest,
    now: u64,
    stage: DeleteStage,
    answer: Answer,
    password: String,
    hash: String,
)
    requires
        delete_transition(request, now, stage, answer).1 == Step::<DeleteResults>::Perform(
            Work::VerifyPassword { password, hash },
        ),
    ensures
        stage is AwaitRecord,
        answer matches Answer::Credentials(Some(record)) && record.suspension(now) == Ok::<bool, Error>(false)
            && hash == record.hash,
        password == request.password,
{
}

/// A password that does not match leads to recording the failed attempt
/// against the account, and nothing is deleted.
pub proof fn law_failed_check_is_recorded(
    request: EmailRequest,
    now: u64,
    record: Credentials,
    verified: Result<bool, VerifyFailure>,
)
    requires
        verification_result(verified) == Ok::<bool, Error>(false),
    ensures
        delete_transition(request, now, DeleteStage::AwaitVerification(record), Answer::Verified(verified))
            == (DeleteStage::AwaitSuspension, Step::<DeleteResults>::Perform(Work::Suspend(record.id))),
{
}

/// A deletion waits on the check of some credentials only right after it
/// asked to check the request's password against their hash.
pub proof fn law_checks_are_asked_before_they_are_awaited(
    request: EmailRequest,
    now: u64,
    stage: DeleteStage,
    answer: Answer,
    record: Credentials,
)
    requires
        delete_transition(request, now, stage, answer).0 == DeleteStage::AwaitVerification(record),
    ensures
        delete_transition(request, now, stage, answer).1 == Step::<DeleteResults>::Perform(
            Work::VerifyPassword { password: request.password, hash: record.hash },
        ),
{
}

} // verus!

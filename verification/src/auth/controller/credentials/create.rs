//! Creating credentials: a weak password is refused with the reasons, a
//! name or email in use (or once used) is a conflict; otherwise the
//! credentials are stored with the password's hash.
use vstd::prelude::*;
use crate::auth::error::{Error, PasswordError};
use crate::auth::model::{CredentialStatus, Credentials, FullRequest};
use crate::auth::password::{estimated_strength, PasswordIssues, Strength, strength};
use crate::auth::protocol::{Answer, Step, Work};

verus! {

/// How a creation ends.
#[derive(Debug, Clone, PartialEq, Eq)]
pub enum SaveResults {
    /// The password is too weak, for these reasons.
    WeakPassword(PasswordIssues),
    /// The credentials as stored.
    Success(Credentials),
    /// The name or the email is in use, or was.
    Conflict,
}

/// Where a creation stands.
#[derive(Debug, PartialEq, Eq)]
pub enum CreateStage {
    /// Waiting to learn whether the name or email is in use.
    AwaitStatus,
    /// Waiting for the password's hash.
    AwaitHash,
    /// Waiting for the credentials to be stored.
    AwaitSave,
    Finished,
}

/// A creation in progress.
#[derive(Debug, PartialEq, Eq)]
pub struct Create {
    pub request: FullRequest,
    pub stage: CreateStage,
}

/// How a creation opens, given the password's strength: an error or a weak
/// password ends it; otherwise the status of the name and email is asked.
pub open spec fn create_opening(request: FullRequest, strength: Result<Strength, Error>) -> (
    CreateStage,
    Step<SaveResults>,
) {
    match strength {
        Err(e) => (CreateStage::Finished, Step::Finish(Err(e))),
        Ok(Strength::Weak(issues)) => (CreateStage::Finished, Step::Finish(Ok(SaveResults::WeakPassword(issues)))),
        Ok(_) => (
            CreateStage::AwaitStatus,
            Step::Perform(Work::CredentialStatus { name: request.name, email: request.email }),
        ),
    }
}

/// The next stage and step of a creation, given the answer to its last
/// work.
pub open spec fn create_transition(request: FullRequest, stage: CreateStage, answer: Answer) -> (
    CreateStage,
    Step<SaveResults>,
) {
    match stage {
        CreateStage::AwaitStatus => match answer {
            Answer::Status(CredentialStatus::Unused) => (
                CreateStage::AwaitHash,
                Step::Perform(Work::HashPassword(request.password)),
            ),
            Answer::Status(_) => (CreateStage::Finished, Step::Finish(Ok(SaveResults::Conflict))),
            Answer::Failed(e) => (CreateStage::Finished, Step::Finish(Err(e))),
            _ => (CreateStage::Finished, Step::Finish(Err(Error::UnexpectedAnswer))),
        },
        CreateStage::AwaitHash => match answer {
            Answer::Hashed(Ok(hash)) => (
                CreateStage::AwaitSave,
                Step::Perform(
                    Work::SaveCredentials(FullRequest { name: request.name, email: request.email, password: hash }),
                ),
            ),
            Answer::Hashed(Err(message)) => (CreateStage::Finished, Step::Finish(Err(Error::Unauthorized(message)))),
            Answer::Failed(e) => (CreateStage::Finished, Step::Finish(Err(e))),
            _ => (CreateStage::Finished, Step::Finish(Err(Error::UnexpectedAnswer))),
        },
        CreateStage::AwaitSave => match answer {
            Answer::Stored(credentials) => (CreateStage::Finished, Step::Finish(Ok(SaveResults::Success(credentials)))),
            Answer::Failed(e) => (CreateStage::Finished, Step::Finish(Err(e))),
            _ => (CreateStage::Finished, Step::Finish(Err(Error::UnexpectedAnswer))),
        },
        CreateStage::Finished => (CreateStage::Finished, Step::Finish(Err(Error::UnexpectedAnswer))),
    }
}

/// Opens a creation on the password's strength.
pub fn begin(request: FullRequest, strength: Result<Strength, Error>) -> (started: (Create, Step<SaveResults>))
    ensures
        started.0.request == request,
        (started.0.stage, started.1) == create_opening(request, strength),
        strength matches Ok(s) && !(s is Weak) ==> started.0.stage is AwaitStatus && started.1
            == Step::<SaveResults>::Perform(Work::CredentialStatus { name: request.name, email: request.email }),
{
    let (stage, step) = match strength {
        Err(e) => (CreateStage::Finished, Step::Finish(Err(e))),
        Ok(Strength::Weak(issues)) => (CreateStage::Finished, Step::Finish(Ok(SaveResults::WeakPassword(issues)))),
        Ok(_) => {
            let work = Work::CredentialStatus { name: request.name.clone(), email: request.email.clone() };
            (CreateStage::AwaitStatus, Step::Perform(work))
        },
    };
    (Create { request, stage }, step)
}

/// Starts a creation: the password's strength is estimated first.
pub fn create(request: FullRequest) -> (started: (Create, Step<SaveResults>))
    ensures
        started.0.request == request,
        exists|s: Result<Strength, Error>|
            estimated_strength(request.password@, seq![request.name@, request.email@], s) && (started.0.stage, started.1)
                == #[trigger] create_opening(request, s),
{
    let estimated = strength(request.name.as_str(), request.email.as_str(), request.password.as_str());
    let ghost s = estimated;
    let ghost r = request;
    let started = begin(request, estimated);
    assert(estimated_strength(r.password@, seq![r.name@, r.email@], s));
    started
}

impl Create {
    /// Decides on the answer to the last work asked for.
    pub fn resume(self, answer: Answer) -> (next: (Create, Step<SaveResults>))
        ensures
            next.0.request == self.request,
            (next.0.stage, next.1) == create_transition(self.request, self.stage, answer),
    {
        let Create { request, stage } = self;
        let (stage, step) = match stage {
            CreateStage::AwaitStatus => match answer {
                Answer::Status(CredentialStatus::Unused) => {
                    let password = request.password.clone();
                    (CreateStage::AwaitHash, Step::Perform(Work::HashPassword(password)))
                },
                Answer::Status(_) => (CreateStage::Finished, Step::Finish(Ok(SaveResults::Conflict))),
                Answer::Failed(e) => (CreateStage::Finished, Step::Finish(Err(e))),
                _ => (CreateStage::Finished, Step::Finish(Err(Error::UnexpectedAnswer))),
            },
            CreateStage::AwaitHash => match answer {
                Answer::Hashed(Ok(hash)) => {
                    let stored = FullRequest { name: request.name.clone(), email: request.email.clone(), password: hash };
                    (CreateStage::AwaitSave, Step::Perform(Work::SaveCredentials(stored)))
                },
                Answer::Hashed(Err(message)) => (
                    CreateStage::Finished,
                    Step::Finish(Err(Error::Unauthorized(message))),
                ),
                Answer::Failed(e) => (CreateStage::Finished, Step::Finish(Err(e))),
                _ => (CreateStage::Finished, Step::Finish(Err(Error::UnexpectedAnswer))),
            },
            CreateStage::AwaitSave => match answer {
                Answer::Stored(credentials) => (
                    CreateStage::Finished,
                    Step::Finish(Ok(SaveResults::Success(credentials))),
                ),
                Answer::Failed(e) => (CreateStage::Finished, Step::Finish(Err(e))),
                _ => (CreateStage::Finished, Step::Finish(Err(Error::UnexpectedAnswer))),
            },
            CreateStage::Finished => (CreateStage::Finished, Step::Finish(Err(Error::UnexpectedAnswer))),
        };
        (Create { request, stage }, step)
    }
}

/// A weak password ends the creation with its reasons; nothing is asked of
/// storage.
pub proof fn law_weak_password_is_refused(request: FullRequest, issues: PasswordIssues)
    ensures
        create_opening(request, Ok(Strength::Weak(issues))) == (
            CreateStage::Finished,
            Step::<SaveResults>::Finish(Ok(SaveResults::WeakPassword(issues))),
        ),
{
}

/// Credentials are stored only once the name and email were found unused
/// and the password was hashed: what is stored is the request's name and
/// email with the hash the hasher gave, never the password.
pub proof fn law_stored_with_the_hash(
    request: FullRequest,
    stage: CreateStage,
    answer: Answer,
    stored: FullRequest,
)
    requires
        create_transition(request, stage, answer).1 == Step::<SaveResults>::Perform(Work::SaveCredentials(stored)),
    ensures
        stage is AwaitHash,
        answer == Answer::Hashed(Ok(stored.password)),
        stored.name == request.name,
        stored.email == request.email,
{
}

/// The password is hashed only once storage said the name and email are
/// unused.
pub proof fn law_hashed_only_when_unused(request: FullRequest, stage: CreateStage, answer: Answer, password: String)
    requires
        create_transition(request, stage, answer).1 == Step::<SaveResults>::Perform(Work::HashPassword(password)),
    ensures
        stage is AwaitStatus,
        answer == Answer::Status(CredentialStatus::Unused),
        password == request.password,
{
}

/// A name or email that is in use, or was deleted, is a conflict.
pub proof fn law_used_names_conflict(request: FullRequest, status: CredentialStatus)
    requires
        status != CredentialStatus::Unused,
    ensures
        create_transition(request, CreateStage::AwaitStatus, Answer::Status(status)) == (
            CreateStage::Finished,
            Step::<SaveResults>::Finish(Ok(SaveResults::Conflict)),
        ),
{
}

/// Every password that is not weak, moderate as well as strong, is first
/// checked against names and emails in use: a creation opens by asking the
/// status of the request's name and email, and asks no hash and no save
/// before it.
pub proof fn law_status_is_checked_before_anything_is_stored(request: FullRequest, strength: Strength)
    requires
        !(strength is Weak),
    ensures
        create_opening(request, Ok(strength)) == (
            CreateStage::AwaitStatus,
            Step::<SaveResults>::Perform(Work::CredentialStatus { name: request.name, email: request.email }),
        ),
{
}

/// A creation asks for a hash or a save only from a stage it reaches after
/// the status check: it never opens with either.
pub proof fn law_opening_never_hashes_or_saves(request: FullRequest, strength: Result<Strength, Error>)
    ensures
        !(create_opening(request, strength).1 matches Step::Perform(Work::HashPassword(_))),
        !(create_opening(request, strength).1 matches Step::Perform(Work::SaveCredentials(_))),
        create_opening(request, strength).1 is Perform ==> create_opening(request, strength).0 is AwaitStatus,
{
}

} // verus!

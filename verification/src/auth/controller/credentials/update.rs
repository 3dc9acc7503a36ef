//! Updating credentials: the owner proves the account by its email and
//! password; each attribute given replaces the stored one, a new password
//! by its hash. A wrong password is recorded against the account.
use vstd::prelude::*;
use crate::auth::error::Error;
use crate::auth::model::{Credentials, CredentialsRequest, EmailRequest};
use crate::auth::password::{verification_outcome, verification_result, VerifyFailure};
use crate::auth::protocol::{Answer, Step, Work};

verus! {

/// How an update ends.
#[derive(Debug, Clone, PartialEq, Eq)]
pub enum UpdateResults {
    /// The credentials as stored after the update.
    Success(Credentials),
    NotFound,
    Suspended,
    Unauthorized,
}

/// Where an update stands.
#[derive(Debug, PartialEq, Eq)]
pub enum UpdateStage {
    /// Waiting for the credentials with the proof's email.
    AwaitRecord,
    /// Waiting for the check of the proof's password against these
    /// credentials.
    AwaitVerification(Credentials),
    /// Waiting for the new password's hash, to update these credentials.
    AwaitHash(Credentials),
    /// Waiting for the updated credentials to be stored.
    AwaitUpdate,
    /// Waiting for the failed attempt to be recorded.
    AwaitSuspension,
    Finished,
}

/// An update in progress, at time `now`: the proof of ownership and the
/// changes.
#[derive(Debug, PartialEq, Eq)]
pub struct Update {
    pub auth_details: EmailRequest,
    pub request: CredentialsRequest,
    pub now: u64,
    pub stage: UpdateStage,
}

/// The stored credentials with the changes applied: the name and email
/// where given, and `hash` as the password hash; id and lock unchanged.
pub open spec fn updated(stored: Credentials, changes: CredentialsRequest, hash: String) -> Credentials {
    Credentials {
        id: stored.id,
        name: match changes.name {
            Some(name) => name,
            None => stored.name,
        },
        email: match changes.email {
            Some(email) => email,
            None => stored.email,
        },
        hash,
        locked_at: stored.locked_at,
    }
}

fn apply_changes(stored: Credentials, changes: &CredentialsRequest, hash: String) -> (credentials: Credentials)
    ensures
        credentials == updated(stored, *changes, hash),
        changes.name matches Some(n) ==> credentials.name == n,
        changes.name is None ==> credentials.name == stored.name,
        changes.email matches Some(e) ==> credentials.email == e,
        changes.email is None ==> credentials.email == stored.email,
        credentials.id == stored.id,
        credentials.hash == hash,
        credentials.locked_at == stored.locked_at,
{
    Credentials {
        id: stored.id,
        name: match &changes.name {
            Some(name) => name.clone(),
            None => stored.name,
        },
        email: match &changes.email {
            Some(email) => email.clone(),
            None => stored.email,
        },
        hash,
        locked_at: stored.locked_at,
    }
}

/// The next stage and step of an update, given the answer to its last
/// work.
pub open spec fn update_transition(
    auth_details: EmailRequest,
    request: CredentialsRequest,
    now: u64,
    stage: UpdateStage,
    answer: Answer,
) -> (UpdateStage, Step<UpdateResults>) {
    match stage {
        UpdateStage::AwaitRecord => match answer {
            Answer::Credentials(None) => (UpdateStage::Finished, Step::Finish(Ok(UpdateResults::NotFound))),
            Answer::Credentials(Some(record)) => match record.suspension(now) {
                Err(e) => (UpdateStage::Finished, Step::Finish(Err(e))),
                Ok(true) => (UpdateStage::Finished, Step::Finish(Ok(UpdateResults::Suspended))),
                Ok(false) => (
                    UpdateStage::AwaitVerification(record),
                    Step::Perform(Work::VerifyPassword { password: auth_details.password, hash: record.hash }),
                ),
            },
            Answer::Failed(e) => (UpdateStage::Finished, Step::Finish(Err(e))),
            _ => (UpdateStage::Finished, Step::Finish(Err(Error::UnexpectedAnswer))),
        },
        UpdateStage::AwaitVerification(record) => match answer {
            Answer::Verified(verified) => match verification_result(verified) {
                Err(e) => (UpdateStage::Finished, Step::Finish(Err(e))),
                Ok(true) => match request.password {
                    Some(password) => (UpdateStage::AwaitHash(record), Step::Perform(Work::HashPassword(password))),
                    None => (
                        UpdateStage::AwaitUpdate,
                        Step::Perform(Work::UpdateCredentials(updated(record, request, record.hash))),
                    ),
                },
                Ok(false) => (UpdateStage::AwaitSuspension, Step::Perform(Work::Suspend(record.id))),
            },
            Answer::Failed(e) => (UpdateStage::Finished, Step::Finish(Err(e))),
            _ => (UpdateStage::Finished, Step::Finish(Err(Error::UnexpectedAnswer))),
        },
        UpdateStage::AwaitHash(record) => match answer {
            Answer::Hashed(Ok(hash)) => (
                UpdateStage::AwaitUpdate,
                Step::Perform(Work::UpdateCredentials(updated(record, request, hash))),
            ),
            Answer::Hashed(Err(message)) => (UpdateStage::Finished, Step::Finish(Err(Error::Unauthorized(message)))),
            Answer::Failed(e) => (UpdateStage::Finished, Step::Finish(Err(e))),
            _ => (UpdateStage::Finished, Step::Finish(Err(Error::UnexpectedAnswer))),
        },
        UpdateStage::AwaitUpdate => match answer {
            Answer::Stored(credentials) => (
                UpdateStage::Finished,
                Step::Finish(Ok(UpdateResults::Success(credentials))),
            ),
            Answer::Failed(e) => (UpdateStage::Finished, Step::Finish(Err(e))),
            _ => (UpdateStage::Finished, Step::Finish(Err(Error::UnexpectedAnswer))),
        },
        UpdateStage::AwaitSuspension => match answer {
            Answer::Suspended => (UpdateStage::Finished, Step::Finish(Ok(UpdateResults::Unauthorized))),
            Answer::Failed(e) => (UpdateStage::Finished, Step::Finish(Err(e))),
            _ => (UpdateStage::Finished, Step::Finish(Err(Error::UnexpectedAnswer))),
        },
        UpdateStage::Finished => (UpdateStage::Finished, Step::Finish(Err(Error::UnexpectedAnswer))),
    }
}

/// Starts an update: first the credentials with the proof's email are
/// looked up.
pub fn update(auth_details: EmailRequest, request: CredentialsRequest, now: u64) -> (started: (
    Update,
    Step<UpdateResults>,
))
    ensures
        started.0.auth_details == auth_details,
        started.0.request == request,
        started.0.now == now,
        started.0.stage is AwaitRecord,
        started.1 == Step::<UpdateResults>::Perform(Work::CredentialsByEmail(auth_details.email)),
{
    let email = auth_details.email.clone();
    (
        Update { auth_details, request, now, stage: UpdateStage::AwaitRecord },
        Step::Perform(Work::CredentialsByEmail(email)),
    )
}

impl Update {
    /// Decides on the answer to the last work asked for.
    pub fn resume(self, answer: Answer) -> (next: (Update, Step<UpdateResults>))
        ensures
            next.0.auth_details == self.auth_details,
            next.0.request == self.request,
            next.0.now == self.now,
            (next.0.stage, next.1) == update_transition(
                self.auth_details,
                self.request,
                self.now,
                self.stage,
                answer,
            ),
    {
        let Update { auth_details, request, now, stage } = self;
        let (stage, step) = match stage {
            UpdateStage::AwaitRecord => match answer {
                Answer::Credentials(None) => (UpdateStage::Finished, Step::Finish(Ok(UpdateResults::NotFound))),
                Answer::Credentials(Some(record)) => match record.suspended(now) {
                    Err(e) => (UpdateStage::Finished, Step::Finish(Err(e))),
                    Ok(true) => (UpdateStage::Finished, Step::Finish(Ok(UpdateResults::Suspended))),
                    Ok(false) => {
                        let work = Work::VerifyPassword {
                            password: auth_details.password.clone(),
                            hash: record.hash.clone(),
                        };
                        (UpdateStage::AwaitVerification(record), Step::Perform(work))
                    },
                },
                Answer::Failed(e) => (UpdateStage::Finished, Step::Finish(Err(e))),
                _ => (UpdateStage::Finished, Step::Finish(Err(Error::UnexpectedAnswer))),
            },
            UpdateStage::AwaitVerification(record) => match answer {
                Answer::Verified(verified) => match verification_outcome(verified) {
                    Err(e) => (UpdateStage::Finished, Step::Finish(Err(e))),
                    Ok(true) => match &request.password {
                        Some(password) => {
                            let password = password.clone();
                            (UpdateStage::AwaitHash(record), Step::Perform(Work::HashPassword(password)))
                        },
                        None => {
                            let hash = record.hash.clone();
                            let changed = apply_changes(record, &request, hash);
                            (UpdateStage::AwaitUpdate, Step::Perform(Work::UpdateCredentials(changed)))
                        },
                    },
                    Ok(false) => (UpdateStage::AwaitSuspension, Step::Perform(Work::Suspend(record.id))),
                },
                Answer::Failed(e) => (UpdateStage::Finished, Step::Finish(Err(e))),
                _ => (UpdateStage::Finished, Step::Finish(Err(Error::UnexpectedAnswer))),
            },
            UpdateStage::AwaitHash(record) => match answer {
                Answer::Hashed(Ok(hash)) => {
                    let changed = apply_changes(record, &request, hash);
                    (UpdateStage::AwaitUpdate, Step::Perform(Work::UpdateCredentials(changed)))
                },
                Answer::Hashed(Err(message)) => (
                    UpdateStage::Finished,
                    Step::Finish(Err(Error::Unauthorized(message))),
                ),
                Answer::Failed(e) => (UpdateStage::Finished, Step::Finish(Err(e))),
                _ => (UpdateStage::Finished, Step::Finish(Err(Error::UnexpectedAnswer))),
            },
            UpdateStage::AwaitUpdate => match answer {
                Answer::Stored(credentials) => (
                    UpdateStage::Finished,
                    Step::Finish(Ok(UpdateResults::Success(credentials))),
                ),
                Answer::Failed(e) => (UpdateStage::Finished, Step::Finish(Err(e))),
                _ => (UpdateStage::Finished, Step::Finish(Err(Error::UnexpectedAnswer))),
            },
            UpdateStage::AwaitSuspension => match answer {
                Answer::Suspended => (UpdateStage::Finished, Step::Finish(Ok(UpdateResults::Unauthorized))),
                Answer::Failed(e) => (UpdateStage::Finished, Step::Finish(Err(e))),
                _ => (UpdateStage::Finished, Step::Finish(Err(Error::UnexpectedAnswer))),
            },
            UpdateStage::Finished => (UpdateStage::Finished, Step::Finish(Err(Error::UnexpectedAnswer))),
        };
        (Update { auth_details, request, now, stage }, step)
    }
}

/// Stored credentials are replaced only after the proof's password matched
/// them; the replacement keeps their id and lock, takes each change given,
/// and holds either the stored hash (no new password) or a hash the hasher
/// made of the new password, never a password itself.
pub proof fn law_updated_only_after_a_matching_password(
    auth_details: EmailRequest,
    request: CredentialsRequest,
    now: u64,
    stage: UpdateStage,
    answer: Answer,
    replacement: Credentials,
)
    requires
        update_transition(auth_details, request, now, stage, answer).1 == Step::<UpdateResults>::Perform(
            Work::UpdateCredentials(replacement),
        ),
    ensures
        stage matches UpdateStage::AwaitVerification(record) ==> (request.password is None && (
        answer matches Answer::Verified(v) && verification_result(v) == Ok::<bool, Error>(true))
            && replacement == updated(record, request, record.hash)),
        stage matches UpdateStage::AwaitHash(record) ==> (answer matches Answer::Hashed(Ok(hash))
            && replacement == updated(record, request, hash)),
        stage is AwaitVerification || stage is AwaitHash,
{
}

/// A new password is hashed only after the proof's password matched.
pub proof fn law_hashed_only_after_a_matching_password(
    auth_details: EmailRequest,
    request: CredentialsRequest,
    now: u64,
    stage: UpdateStage,
    answer: Answer,
    password: String,
)
    requires
        update_transition(auth_details, request, now, stage, answer).1 == Step::<UpdateResults>::Perform(
            Work::HashPassword(password),
        ),
    ensures
        stage is AwaitVerification,
        answer matches Answer::Verified(v) && verification_result(v) == Ok::<bool, Error>(true),
        request.password == Some(password),
{
}

/// A password that does not match leads to recording the failed attempt
/// against the account, and nothing is changed.
pub proof fn law_failed_check_is_recorded(
    auth_details: EmailRequest,
    request: CredentialsRequest,
    now: u64,
    record: Credentials,
    verified: Result<bool, VerifyFailure>,
)
    requires
        verification_result(verified) == Ok::<bool, Error>(false),
    ensures
        update_transition(
            auth_details,
            request,
            now,
            UpdateStage::AwaitVerification(record),
            Answer::Verified(verified),
        ) == (UpdateStage::AwaitSuspension, Step::<UpdateResults>::Perform(Work::Suspend(record.id))),
{
}

/// An update waits on the check of some credentials only right after it
/// asked to check the proof's password against their hash.
pub proof fn law_checks_are_asked_before_they_are_awaited(
    auth_details: EmailRequest,
    request: CredentialsRequest,
    now: u64,
    stage: UpdateStage,
    answer: Answer,
    record: Credentials,
)
    requires
        update_transition(auth_details, request, now, stage, answer).0 == UpdateStage::AwaitVerification(record),
    ensures
        update_transition(auth_details, request, now, stage, answer).1 == Step::<UpdateResults>::Perform(
            Work::VerifyPassword { password: auth_details.password, hash: record.hash },
        ),
{
}

/// The replacement takes each attribute given, independently of the
/// others: a given name or email replaces the stored one, one not given is
/// kept; the id and the lock are kept.
pub open spec fn takes_each_change(stored: Credentials, changes: CredentialsRequest, replacement: Credentials) -> bool {
    &&& changes.name matches Some(n) ==> replacement.name == n
    &&& changes.name is None ==> replacement.name == stored.name
    &&& changes.email matches Some(e) ==> replacement.email == e
    &&& changes.email is None ==> replacement.email == stored.email
    &&& replacement.id == stored.id
    &&& replacement.locked_at == stored.locked_at
}

/// Whatever replacement an update asks to store takes each change given
/// (a new email as well as a new name), keeps what is not given, and keeps
/// the stored hash unless a new password was hashed.
pub proof fn law_each_given_change_is_stored(
    auth_details: EmailRequest,
    request: CredentialsRequest,
    now: u64,
    stage: UpdateStage,
    answer: Answer,
    replacement: Credentials,
)
    requires
        update_transition(auth_details, request, now, stage, answer).1 == Step::<UpdateResults>::Perform(
            Work::UpdateCredentials(replacement),
        ),
    ensures
        stage matches UpdateStage::AwaitVerification(stored) ==> takes_each_change(stored, request, replacement)
            && replacement.hash == stored.hash,
        stage matches UpdateStage::AwaitHash(stored) ==> takes_each_change(stored, request, replacement) && (
        answer matches Answer::Hashed(Ok(hash)) && replacement.hash == hash),
{
}

/// Once the proof's password matched, an update without a new password
/// asks to store the stored credentials with every change given; with a new
/// password it asks for that password's hash first.
pub proof fn law_matching_password_leads_to_the_changes(
    auth_details: EmailRequest,
    request: CredentialsRequest,
    now: u64,
    stored: Credentials,
    verified: Result<bool, VerifyFailure>,
)
    requires
        verification_result(verified) == Ok::<bool, Error>(true),
    ensures
        ({
            let next = update_transition(
                auth_details,
                request,
                now,
                UpdateStage::AwaitVerification(stored),
                Answer::Verified(verified),
            );
            match request.password {
                None => next.1 matches Step::Perform(Work::UpdateCredentials(replacement)) && takes_each_change(
                    stored,
                    request,
                    replacement,
                ) && replacement.hash == stored.hash,
                Some(password) => next == (
                    UpdateStage::AwaitHash(stored),
                    Step::<UpdateResults>::Perform(Work::HashPassword(password)),
                ),
            }
        }),
{
}

/// Given the new password's hash, an update asks to store the stored
/// credentials with every change given and that hash.
pub proof fn law_new_hash_is_stored_with_the_changes(
    auth_details: EmailRequest,
    request: CredentialsRequest,
    now: u64,
    stored: Credentials,
    hash: String,
)
    ensures
        update_transition(auth_details, request, now, UpdateStage::AwaitHash(stored), Answer::Hashed(Ok(hash))).1
            matches Step::Perform(Work::UpdateCredentials(replacement)) && takes_each_change(
            stored,
            request,
            replacement,
        ) && replacement.hash == hash,
{
}

} // verus!

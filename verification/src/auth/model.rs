//! The service's records and requests. Times are seconds since the Unix
//! epoch.
use vstd::prelude::*;
use vstd::string::*;
use crate::auth::configuration::{ACCOUNT_LOCK_DURATION_IN_SECONDS, ALLOWED_FAILED_LOGIN_ATTEMPTS};
use crate::auth::error::Error;

verus! {

/// The id of a stored set of credentials.
pub type CredentialId = String;

/// A stored set of credentials: the user's name and email, the hash of the
/// password, and when the account was last locked, if ever.
#[derive(Debug, PartialEq, Eq)]
pub struct Credentials {
    pub id: CredentialId,
    pub name: String,
    pub email: String,
    pub hash: String,
    pub locked_at: Option<u64>,
}

impl Clone for Credentials {
    fn clone(&self) -> (copy: Self)
        ensures
            copy == *self,
    {
        Credentials {
            id: self.id.clone(),
            name: self.name.clone(),
            email: self.email.clone(),
            hash: self.hash.clone(),
            locked_at: self.locked_at,
        }
    }
}

impl Credentials {
    /// Whether the account is locked at time `now`: it was locked less than
    /// `ACCOUNT_LOCK_DURATION_IN_SECONDS` ago. A lock recorded after `now`
    /// is a clock error.
    pub open spec fn suspension(&self, now: u64) -> Result<bool, Error> {
        match self.locked_at {
            None => Ok(false),
            Some(locked_at) => if locked_at > now {
                Err(Error::SystemTimeError((locked_at - now) as u64))
            } else {
                Ok(now - locked_at < ACCOUNT_LOCK_DURATION_IN_SECONDS)
            },
        }
    }

    /// Whether the account is locked at time `now`.
    pub fn suspended(&self, now: u64) -> (suspended: Result<bool, Error>)
        ensures
            suspended == self.suspension(now),
    {
        match self.locked_at {
            None => Ok(false),
            Some(locked_at) => if locked_at > now {
                Err(Error::SystemTimeError(locked_at - now))
            } else {
                Ok(now - locked_at < ACCOUNT_LOCK_DURATION_IN_SECONDS)
            },
        }
    }
}

/// A sign-in by name.
#[derive(Debug, Clone, PartialEq, Eq)]
pub struct NameRequest {
    pub name: String,
    pub password: String,
}

/// A request that proves the owner of an email.
#[derive(Debug, Clone, PartialEq, Eq)]
pub struct EmailRequest {
    pub email: String,
    pub password: String,
}

/// New credentials: a name, an email and a password (or its hash, once
/// hashed).
#[derive(Debug, Clone, PartialEq, Eq)]
pub struct FullRequest {
    pub name: String,
    pub email: String,
    pub password: String,
}

/// Changes to credentials: each attribute that is present replaces the
/// stored one.
#[derive(Debug, Clone, PartialEq, Eq)]
pub struct CredentialsRequest {
    pub name: Option<String>,
    pub email: Option<String>,
    pub password: Option<String>,
}

/// An update: the proof of ownership and the changes.
#[derive(Debug, Clone, PartialEq, Eq)]
pub struct UpdateCredentials {
    pub auth: EmailRequest,
    pub credentials: CredentialsRequest,
}

/// A request to reset the password of the account with this email.
#[derive(Debug, Clone, PartialEq, Eq)]
pub struct ResetRequest {
    pub email: String,
}

/// The confirmation of a reset: the reset request's id, its token, and the
/// new password.
#[derive(Debug, Clone, PartialEq, Eq)]
pub struct ResetConfirmation {
    pub id: String,
    pub reset_token: String,
    pub password: String,
}

/// A stored password reset request: its id, the user it is for, the hash of
/// its token, and when it was made.
#[derive(Debug, PartialEq, Eq)]
pub struct PasswordResetRequest {
    pub id: String,
    pub user_id: CredentialId,
    pub reset_token: String,
    pub created_at: u64,
}

/// What is handed out for a reset request: its id and token.
#[derive(Debug, Clone, PartialEq, Eq)]
pub struct ResetToken {
    pub id: String,
    pub reset_token: String,
}

impl ResetToken {
    pub fn new(id: &str, reset_token: &str) -> (token: ResetToken)
        ensures
            token.id@ == id@,
            token.reset_token@ == reset_token@,
    {
        ResetToken { id: String::from_str(id), reset_token: String::from_str(reset_token) }
    }
}

/// What storage knows of a name and an email.
#[derive(Debug, Clone, Copy, PartialEq, Eq, Structural)]
pub enum CredentialStatus {
    /// Neither is in use.
    Unused,
    /// Credentials with that name or email exist.
    Exists,
    /// Credentials with that name or email were deleted.
    Deleted,
}

/// The status of a name and an email, from the records that have either
/// (each flag tells whether that record was deleted): unused where there is
/// none, in use where one of them is not deleted, deleted otherwise.
pub open spec fn status_of(deleted: Seq<bool>) -> CredentialStatus {
    if deleted.len() == 0 {
        CredentialStatus::Unused
    } else if exists|i: int| 0 <= i < deleted.len() && !#[trigger] deleted[i] {
        CredentialStatus::Exists
    } else {
        CredentialStatus::Deleted
    }
}

/// Decides the status of a name and an email from the deletion flags of
/// the records that have either.
pub fn credential_status(deleted: &Vec<bool>) -> (status: CredentialStatus)
    ensures
        status == status_of(deleted@),
{
    if deleted.len() == 0 {
        return CredentialStatus::Unused;
    }
    let n = deleted.len();
    for i in 0..n
        invariant
            n == deleted@.len(),
            forall|j: int| 0 <= j < i ==> #[trigger] deleted@[j],
    {
        if !deleted[i] {
            return CredentialStatus::Exists;
        }
    }
    CredentialStatus::Deleted
}

/// Whether this many failed sign-ins lock the account: at least
/// `ALLOWED_FAILED_LOGIN_ATTEMPTS` of them.
pub fn lock_due(failed_attempts: u64) -> (lock: bool)
    ensures
        lock == (failed_attempts >= ALLOWED_FAILED_LOGIN_ATTEMPTS),
{
    failed_attempts >= ALLOWED_FAILED_LOGIN_ATTEMPTS as u64
}

} // verus!

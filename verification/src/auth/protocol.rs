//! How a controller and its caller take turns: the controller names the
//! next piece of outside work, the caller does it and hands back the
//! answer, until the controller finishes.
use vstd::prelude::*;
use crate::auth::error::Error;
use crate::auth::model::{
    CredentialId, CredentialStatus, Credentials, FullRequest, PasswordResetRequest,
};
use crate::auth::password::VerifyFailure;

verus! {

/// A piece of work done outside the controller: a storage operation, or
/// hashing or checking a password.
#[derive(Debug, PartialEq, Eq)]
pub enum Work {
    /// Look up the credentials with this name.
    CredentialsByName(String),
    /// Look up the credentials with this email.
    CredentialsByEmail(String),
    /// Tell whether this name or email is in use.
    CredentialStatus { name: String, email: String },
    /// Store new credentials (with the password's hash).
    SaveCredentials(FullRequest),
    /// Mark the credentials with this email as deleted.
    MarkAsDeletedByEmail(String),
    /// Replace the stored credentials with these.
    UpdateCredentials(Credentials),
    /// Replace the password hash of this user.
    UpdatePasswordHash { user_id: CredentialId, hash: String },
    /// Record a failed sign-in of this user.
    Suspend(CredentialId),
    /// Make a password reset request for the account with this email.
    GenerateResetRequest(String),
    /// Look up the password reset request with this id.
    ResetRequestById(String),
    /// Check `password` against the Argon2 hash `hash`.
    VerifyPassword { password: String, hash: String },
    /// Hash `password` with Argon2.
    HashPassword(String),
}

/// The answer to a piece of outside work.
#[derive(Debug, PartialEq, Eq)]
pub enum Answer {
    /// The credentials found, if any.
    Credentials(Option<Credentials>),
    /// Whether a name or email is in use.
    Status(CredentialStatus),
    /// The credentials as stored.
    Stored(Credentials),
    /// How many records were marked.
    Marked(u64),
    /// The failed sign-in was recorded.
    Suspended,
    /// The password reset request found or made, if any.
    ResetRequest(Option<PasswordResetRequest>),
    /// What checking a password gave.
    Verified(Result<bool, VerifyFailure>),
    /// The hash made, or the hasher's error message.
    Hashed(Result<String, String>),
    /// The work failed with this error.
    Failed(Error),
}

/// What a controller does next: have some work done, or finish with its
/// result.
#[derive(Debug, PartialEq, Eq)]
pub enum Step<T> {
    Perform(Work),
    Finish(Result<T, Error>),
}

} // verus!

//! What the service answers over HTTP for each outcome of its controllers.
//! Reading requests and writing responses is the caller's part.
use vstd::prelude::*;
use crate::auth::controller::authorization::Results;
use crate::auth::controller::credentials::create::SaveResults;
use crate::auth::controller::credentials::delete::DeleteResults;
use crate::auth::controller::credentials::update::UpdateResults;
use crate::auth::controller::password_reset::ResetResult;
use crate::auth::error::Error;
use crate::auth::jwt::{generate_token, hs256_token};
use crate::auth::model::{Credentials, ResetToken};
use crate::auth::password::PasswordIssues;
use crate::status_codes::{
    ACCEPTED, CONFLICT, CREATED, FORBIDDEN, GONE, INTERNAL_SERVER_ERROR, OKAY, StatusCode, UNAUTHORIZED,
};

verus! {

/// A response: a status, with a token for the `Authorization` header, the
/// reasons a password is weak, or a reset token as the body.
#[derive(Debug, PartialEq, Eq)]
pub enum Reply {
    Status(StatusCode),
    WithToken(StatusCode, String),
    WithIssues(StatusCode, PasswordIssues),
    WithResetToken(StatusCode, ResetToken),
}

/// The status of a reply.
pub open spec fn reply_status(reply: Reply) -> StatusCode {
    match reply {
        Reply::Status(status) => status,
        Reply::WithToken(status, _) => status,
        Reply::WithIssues(status, _) => status,
        Reply::WithResetToken(status, _) => status,
    }
}

/// `reply` hands out the token of `credentials` with `status`, or, where no
/// token can be signed, answers with an internal server error.
pub open spec fn token_reply(credentials: Credentials, secret: Seq<char>, expiration: usize, status: StatusCode, reply: Reply) -> bool {
    match hs256_token(credentials.id@, credentials.email@, credentials.name@, expiration, secret) {
        Some(t) => reply matches Reply::WithToken(s, given) && s == status && given@ == t,
        None => reply == Reply::Status(INTERNAL_SERVER_ERROR),
    }
}

fn reply_with_token(credentials: &Credentials, secret: &str, expiration: usize, status: StatusCode) -> (reply: Reply)
    ensures
        token_reply(*credentials, secret@, expiration, status, reply),
{
    match generate_token(credentials, secret, expiration) {
        Ok(token) => Reply::WithToken(status, token),
        Err(_) => Reply::Status(INTERNAL_SERVER_ERROR),
    }
}

/// The answer that fits the outcome of a creation.
pub open spec fn creation_reply(result: Result<SaveResults, Error>, secret: Seq<char>, expiration: usize, reply: Reply) -> bool {
    match result {
        Ok(SaveResults::Success(credentials)) => token_reply(credentials, secret, expiration, CREATED, reply),
        Ok(SaveResults::WeakPassword(issues)) => reply == Reply::WithIssues(FORBIDDEN, issues),
        Ok(SaveResults::Conflict) => reply == Reply::Status(CONFLICT),
        Err(_) => reply == Reply::Status(INTERNAL_SERVER_ERROR),
    }
}

/// The answer to a creation: created with a token, forbidden with the
/// reasons for a weak password, a conflict, or an internal server error.
pub fn save_credentials(result: Result<SaveResults, Error>, secret: &str, expiration: usize) -> (reply: Reply)
    ensures
        creation_reply(result, secret@, expiration, reply),
{
    match result {
        Ok(SaveResults::Success(credentials)) => reply_with_token(&credentials, secret, expiration, CREATED),
        Ok(SaveResults::WeakPassword(issues)) => Reply::WithIssues(FORBIDDEN, issues),
        Ok(SaveResults::Conflict) => Reply::Status(CONFLICT),
        Err(_) => Reply::Status(INTERNAL_SERVER_ERROR),
    }
}

/// The answer to a deletion: accepted, unauthorized for any refusal, or an
/// internal server error.
pub fn delete_credentials(result: Result<DeleteResults, Error>) -> (status: StatusCode)
    ensures
        status == match result {
            Ok(DeleteResults::Success) => ACCEPTED,
            Ok(_) => UNAUTHORIZED,
            Err(_) => INTERNAL_SERVER_ERROR,
        },
{
    match result {
        Ok(DeleteResults::Success) => ACCEPTED,
        Ok(_) => UNAUTHORIZED,
        Err(_) => INTERNAL_SERVER_ERROR,
    }
}

/// The answer that fits the outcome of an update.
pub open spec fn update_reply(result: Result<UpdateResults, Error>, secret: Seq<char>, expiration: usize, reply: Reply) -> bool {
    match result {
        Ok(UpdateResults::Success(credentials)) => token_reply(credentials, secret, expiration, OKAY, reply),
        Ok(_) => reply == Reply::Status(UNAUTHORIZED),
        Err(_) => reply == Reply::Status(INTERNAL_SERVER_ERROR),
    }
}

/// The answer to an update: okay with a token for the updated credentials,
/// unauthorized for any refusal, or an internal server error.
pub fn update_credentials(result: Result<UpdateResults, Error>, secret: &str, expiration: usize) -> (reply: Reply)
    ensures
        update_reply(result, secret@, expiration, reply),
        result matches Ok(r) && !(r is Success) ==> reply == Reply::Status(UNAUTHORIZED),
        reply_status(reply) == OKAY ==> result matches Ok(UpdateResults::Success(_)),
{
    match result {
        Ok(UpdateResults::Success(credentials)) => reply_with_token(&credentials, secret, expiration, OKAY),
        Ok(_) => Reply::Status(UNAUTHORIZED),
        Err(_) => Reply::Status(INTERNAL_SERVER_ERROR),
    }
}

/// The answer that fits the outcome of a sign-in.
pub open spec fn sign_in_reply(result: Result<Results, Error>, secret: Seq<char>, expiration: usize, reply: Reply) -> bool {
    match result {
        Ok(Results::Valid(credentials)) => token_reply(credentials, secret, expiration, OKAY, reply),
        Ok(_) => reply == Reply::Status(UNAUTHORIZED),
        Err(_) => reply == Reply::Status(INTERNAL_SERVER_ERROR),
    }
}

/// The answer to a sign-in: okay with a token for valid credentials,
/// unauthorized otherwise, or an internal server error.
pub fn authenticate_credentials(result: Result<Results, Error>, secret: &str, expiration: usize) -> (reply: Reply)
    ensures
        sign_in_reply(result, secret@, expiration, reply),
        result matches Ok(r) && !(r is Valid) ==> reply == Reply::Status(UNAUTHORIZED),
        reply_status(reply) == OKAY ==> result matches Ok(Results::Valid(_)),
{
    match result {
        Ok(Results::Valid(credentials)) => reply_with_token(&credentials, secret, expiration, OKAY),
        Ok(_) => Reply::Status(UNAUTHORIZED),
        Err(_) => Reply::Status(INTERNAL_SERVER_ERROR),
    }
}

/// The answer to a reset request: accepted with the token, or an internal
/// server error.
pub fn request_password_reset(result: Result<ResetToken, Error>) -> (reply: Reply)
    ensures
        match result {
            Ok(token) => reply == Reply::WithResetToken(ACCEPTED, token),
            Err(_) => reply == Reply::Status(INTERNAL_SERVER_ERROR),
        },
{
    match result {
        Ok(token) => Reply::WithResetToken(ACCEPTED, token),
        Err(_) => Reply::Status(INTERNAL_SERVER_ERROR),
    }
}

/// The answer that fits the outcome of a reset.
pub open spec fn reset_reply(result: Result<ResetResult, Error>) -> Reply {
    match result {
        Ok(ResetResult::WeakPassword(issues)) => Reply::WithIssues(FORBIDDEN, issues),
        Ok(ResetResult::Expired) => Reply::Status(GONE),
        Ok(_) => Reply::Status(ACCEPTED),
        Err(_) => Reply::Status(INTERNAL_SERVER_ERROR),
    }
}

/// The answer to a reset: forbidden with the reasons for a weak new
/// password, gone for an expired request, an internal server error, and
/// otherwise accepted (so that a wrong token or id reveals nothing).
pub fn reset_password(result: Result<ResetResult, Error>) -> (reply: Reply)
    ensures
        reply == reset_reply(result),
{
    match result {
        Ok(ResetResult::WeakPassword(issues)) => Reply::WithIssues(FORBIDDEN, issues),
        Ok(ResetResult::Expired) => Reply::Status(GONE),
        Ok(_) => Reply::Status(ACCEPTED),
        Err(_) => Reply::Status(INTERNAL_SERVER_ERROR),
    }
}

/// A reset reveals nothing of why a token was not taken: an unknown id and
/// a wrong token are answered as a success is.
pub proof fn law_reset_hides_unknown_ids_and_wrong_tokens(credentials: Credentials)
    ensures
        reset_reply(Ok(ResetResult::NotFound)) == reset_reply(Ok(ResetResult::Success(credentials))),
        reset_reply(Ok(ResetResult::InvalidToken)) == reset_reply(Ok(ResetResult::Success(credentials))),
{
}

/// A creation hands out a token only for credentials it stored, with the
/// status created.
pub proof fn law_creation_token_only_on_success(
    result: Result<SaveResults, Error>,
    secret: Seq<char>,
    expiration: usize,
    reply: Reply,
)
    requires
        creation_reply(result, secret, expiration, reply),
        reply is WithToken,
    ensures
        result matches Ok(SaveResults::Success(_)),
        reply matches Reply::WithToken(status, _) && status == CREATED,
{
}

/// An update hands out a token only for credentials it updated, with the
/// status okay.
pub proof fn law_update_token_only_on_success(
    result: Result<UpdateResults, Error>,
    secret: Seq<char>,
    expiration: usize,
    reply: Reply,
)
    requires
        update_reply(result, secret, expiration, reply),
        reply is WithToken,
    ensures
        result matches Ok(UpdateResults::Success(_)),
        reply matches Reply::WithToken(status, _) && status == OKAY,
{
}

/// A sign-in hands out a token only for valid credentials, with the status
/// okay.
pub proof fn law_sign_in_token_only_when_valid(
    result: Result<Results, Error>,
    secret: Seq<char>,
    expiration: usize,
    reply: Reply,
)
    requires
        sign_in_reply(result, secret, expiration, reply),
        reply is WithToken,
    ensures
        result matches Ok(Results::Valid(_)),
        reply matches Reply::WithToken(status, _) && status == OKAY,
{
}

/// A sign-in is answered okay only for valid credentials; a missing
/// account, a wrong password and a locked account are each answered
/// unauthorized.
pub proof fn law_sign_in_refusals_are_unauthorized(
    result: Result<Results, Error>,
    secret: Seq<char>,
    expiration: usize,
    reply: Reply,
)
    requires
        sign_in_reply(result, secret, expiration, reply),
    ensures
        result == Ok::<Results, Error>(Results::NoRecord) ==> reply == Reply::Status(UNAUTHORIZED),
        result == Ok::<Results, Error>(Results::Invalid) ==> reply == Reply::Status(UNAUTHORIZED),
        result == Ok::<Results, Error>(Results::Suspended) ==> reply == Reply::Status(UNAUTHORIZED),
        reply_status(reply) == OKAY ==> result matches Ok(Results::Valid(_)),
{
}

/// An update is answered okay only when it was stored; an unknown account,
/// a locked account and a wrong password are each answered unauthorized.
pub proof fn law_update_refusals_are_unauthorized(
    result: Result<UpdateResults, Error>,
    secret: Seq<char>,
    expiration: usize,
    reply: Reply,
)
    requires
        update_reply(result, secret, expiration, reply),
    ensures
        result == Ok::<UpdateResults, Error>(UpdateResults::NotFound) ==> reply == Reply::Status(UNAUTHORIZED),
        result == Ok::<UpdateResults, Error>(UpdateResults::Suspended) ==> reply == Reply::Status(UNAUTHORIZED),
        result == Ok::<UpdateResults, Error>(UpdateResults::Unauthorized) ==> reply == Reply::Status(UNAUTHORIZED),
        reply_status(reply) == OKAY ==> result matches Ok(UpdateResults::Success(_)),
{
}

} // verus!

use by_the_peoples::auth::configuration::hash::{lanes, memory_usage, secret as hash_secret, time_cost};
use by_the_peoples::auth::configuration::jwt::{expiration, secret as jwt_secret};
use by_the_peoples::auth::controller::authorization::Results;
use by_the_peoples::auth::controller::credentials::create::{create, SaveResults};
use by_the_peoples::auth::controller::credentials::delete::DeleteResults;
use by_the_peoples::auth::controller::credentials::update::UpdateResults;
use by_the_peoples::auth::configuration::PASSWORD_RESET_TIME_PERIOD;
use by_the_peoples::auth::controller::password_reset::{reset_password as begin_reset_password, ResetResult};
use by_the_peoples::auth::error::Error;
use by_the_peoples::auth::handler::{
    authenticate_credentials, delete_credentials, request_password_reset, reset_password,
    save_credentials, update_credentials, Reply,
};
use by_the_peoples::auth::jwt::generate_token;
use by_the_peoples::auth::model::{
    CredentialStatus, Credentials, FullRequest, PasswordResetRequest, ResetConfirmation, ResetToken,
};
use by_the_peoples::auth::password::{strength, verification_outcome, Strength, VerifyFailure};
use by_the_peoples::auth::protocol::{Answer, Step, Work};
use by_the_peoples::status_codes;

const SECRET: &str = "signing secret";
const EXPIRATION: usize = 500000;

fn credentials() -> Credentials {
    Credentials {
        id: String::from("a2c4e6"),
        name: String::from("fake name"),
        email: String::from("fake@email.com"),
        hash: String::from("$argon2id$stored"),
        locked_at: None,
    }
}

fn status(reply: &Reply) -> u16 {
    match reply {
        Reply::Status(s) | Reply::WithToken(s, _) | Reply::WithIssues(s, _) | Reply::WithResetToken(s, _) => *s,
    }
}

fn has_auth_header(reply: &Reply) -> bool {
    matches!(reply, Reply::WithToken(_, _))
}

fn unexpected() -> Error {
    Error::InternalServerError("testing".to_string())
}

#[test]
fn returns_created_on_successful_creation() {
    let result = save_credentials(Ok(SaveResults::Success(credentials())), SECRET, EXPIRATION);
    assert_eq!(status(&result), status_codes::CREATED);
}

#[test]
fn creation_sets_auth_header_on_successful_authentication() {
    let result = save_credentials(Ok(SaveResults::Success(credentials())), SECRET, EXPIRATION);
    assert!(has_auth_header(&result));
}

#[test]
fn creation_returns_forbidden_when_a_password_is_too_weak() {
    let request = FullRequest {
        name: String::from("fake name"),
        email: String::from("fake@email.com"),
        password: String::from("password"),
    };
    let (_, step) = create(request);
    let outcome = match step {
        Step::Finish(result) => result,
        Step::Perform(work) => panic!("unexpected work {:?}", work),
    };
    let result = save_credentials(outcome, SECRET, EXPIRATION);
    assert_eq!(status(&result), status_codes::FORBIDDEN);
}

#[test]
fn does_not_set_auth_header_when_password_is_too_weak() {
    let request = FullRequest {
        name: String::from("fake name"),
        email: String::from("fake@email.com"),
        password: String::from("password"),
    };
    let (_, step) = create(request);
    let outcome = match step {
        Step::Finish(result) => result,
        Step::Perform(work) => panic!("unexpected work {:?}", work),
    };
    let result = save_credentials(outcome, SECRET, EXPIRATION);
    assert!(!has_auth_header(&result));
    assert!(matches!(result, Reply::WithIssues(_, _)));
}

#[test]
fn returns_conflict_when_a_matching_record_exists() {
    let result = save_credentials(Ok(SaveResults::Conflict), SECRET, EXPIRATION);
    assert_eq!(status(&result), status_codes::CONFLICT);
}

#[test]
fn does_not_set_auth_header_on_conflict() {
    let result = save_credentials(Ok(SaveResults::Conflict), SECRET, EXPIRATION);
    assert!(!has_auth_header(&result));
}

#[test]
fn creation_returns_internal_server_error_on_unexpected_error() {
    let result = save_credentials(Err(unexpected()), SECRET, EXPIRATION);
    assert_eq!(status(&result), status_codes::INTERNAL_SERVER_ERROR);
}

#[test]
fn creation_does_not_set_auth_header_on_unexpected_error() {
    let result = save_credentials(Err(unexpected()), SECRET, EXPIRATION);
    assert!(!has_auth_header(&result));
}

#[test]
fn returns_accepted_on_successful_deletion() {
    assert_eq!(delete_credentials(Ok(DeleteResults::Success)), status_codes::ACCEPTED);
}

#[test]
fn deletion_returns_unauthorized_on_failed_authentication() {
    assert_eq!(delete_credentials(Ok(DeleteResults::NotFound)), status_codes::UNAUTHORIZED);
    assert_eq!(delete_credentials(Ok(DeleteResults::Suspended)), status_codes::UNAUTHORIZED);
    assert_eq!(delete_credentials(Ok(DeleteResults::Unauthorized)), status_codes::UNAUTHORIZED);
}

#[test]
fn deletion_returns_internal_server_error_on_unexpected_error() {
    assert_eq!(delete_credentials(Err(unexpected())), status_codes::INTERNAL_SERVER_ERROR);
}

#[test]
fn updates_returns_okay_on_successful_authentication() {
    let result = update_credentials(Ok(UpdateResults::Success(credentials())), SECRET, EXPIRATION);
    assert_eq!(status(&result), status_codes::OKAY);
}

#[test]
fn updates_sets_auth_header_on_successful_authentication() {
    let result = update_credentials(Ok(UpdateResults::Success(credentials())), SECRET, EXPIRATION);
    assert!(has_auth_header(&result));
}

#[test]
fn updates_returns_unauthorized_on_failed_authentication() {
    let result = update_credentials(Ok(UpdateResults::NotFound), SECRET, EXPIRATION);
    assert_eq!(status(&result), status_codes::UNAUTHORIZED);
}

#[test]
fn updates_does_not_set_auth_header_on_failed_authentication() {
    let result = update_credentials(Ok(UpdateResults::NotFound), SECRET, EXPIRATION);
    assert!(!has_auth_header(&result));
}

#[test]
fn updates_returns_internal_server_error_on_unexpected_error() {
    let result = update_credentials(Err(unexpected()), SECRET, EXPIRATION);
    assert_eq!(status(&result), status_codes::INTERNAL_SERVER_ERROR);
}

#[test]
fn updates_does_not_set_auth_header_on_unexpected_error() {
    let result = update_credentials(Err(unexpected()), SECRET, EXPIRATION);
    assert!(!has_auth_header(&result));
}

#[test]
fn verification_returns_okay_on_successful_authentication() {
    let result = authenticate_credentials(Ok(Results::Valid(credentials())), SECRET, EXPIRATION);
    assert_eq!(status(&result), status_codes::OKAY);
}

#[test]
fn verification_sets_auth_header_on_successful_authentication() {
    let result = authenticate_credentials(Ok(Results::Valid(credentials())), SECRET, EXPIRATION);
    assert!(has_auth_header(&result));
}

#[test]
fn verification_returns_unauthorized_on_failed_authentication() {
    let result = authenticate_credentials(Ok(Results::NoRecord), SECRET, EXPIRATION);
    assert_eq!(status(&result), status_codes::UNAUTHORIZED);
    let result = authenticate_credentials(Ok(Results::Invalid), SECRET, EXPIRATION);
    assert_eq!(status(&result), status_codes::UNAUTHORIZED);
}

#[test]
fn verification_does_not_set_auth_header_on_failed_authentication() {
    let result = authenticate_credentials(Ok(Results::Suspended), SECRET, EXPIRATION);
    assert!(!has_auth_header(&result));
}

#[test]
fn verification_returns_internal_server_error_on_unexpected_error() {
    let result = authenticate_credentials(Err(unexpected()), SECRET, EXPIRATION);
    assert_eq!(status(&result), status_codes::INTERNAL_SERVER_ERROR);
}

#[test]
fn verification_does_not_set_auth_header_on_unexpected_error() {
    let result = authenticate_credentials(Err(unexpected()), SECRET, EXPIRATION);
    assert!(!has_auth_header(&result));
}

#[test]
fn returns_accepted_when_a_record_cannot_be_created() {
    let token = ResetToken::new("reset-1", "$argon2id$token");
    let result = request_password_reset(Ok(token.clone()));
    assert_eq!(status(&result), status_codes::ACCEPTED);
    assert_eq!(result, Reply::WithResetToken(status_codes::ACCEPTED, token));
}

#[test]
fn returns_accepted_when_a_record_is_created() {
    let result = request_password_reset(Ok(ResetToken::new("dummy-id", "$argon2id$dummy")));
    assert_eq!(status(&result), status_codes::ACCEPTED);
}

#[test]
fn returns_internal_server_error_when_an_unexpected_error_occurs() {
    let result = request_password_reset(Err(Error::InternalServerError(String::from("Somethings amiss"))));
    assert_eq!(status(&result), status_codes::INTERNAL_SERVER_ERROR);
}

#[test]
fn returns_internal_server_error_when_an_error_occurs() {
    let result = reset_password(Err(Error::InternalServerError(String::from("Testing"))));
    assert_eq!(status(&result), status_codes::INTERNAL_SERVER_ERROR);
}

#[test]
fn returns_accepted_when_no_matching_request_is_found() {
    assert_eq!(status(&reset_password(Ok(ResetResult::NotFound))), status_codes::ACCEPTED);
}

#[test]
fn returns_accepted_when_no_an_invalid_token_is_received() {
    assert_eq!(status(&reset_password(Ok(ResetResult::InvalidToken))), status_codes::ACCEPTED);
}

#[test]
fn returns_accepted_on_successful_password_reset() {
    assert_eq!(status(&reset_password(Ok(ResetResult::Success(credentials())))), status_codes::ACCEPTED);
}

#[test]
fn tokens_are_signed_with_the_secret() {
    let token = generate_token(&credentials(), SECRET, EXPIRATION).unwrap();
    let parts: Vec<&str> = token.split('.').collect();
    assert_eq!(parts.len(), 3);
    let again = generate_token(&credentials(), SECRET, EXPIRATION).unwrap();
    assert_eq!(token, again);
    let other = generate_token(&credentials(), "another secret", EXPIRATION).unwrap();
    assert_ne!(token, other);
    let mut renamed = credentials();
    renamed.name = String::from("someone else");
    assert_ne!(generate_token(&renamed, SECRET, EXPIRATION).unwrap(), token);
}

#[test]
fn the_reply_carries_the_token_of_the_credentials() {
    let expected = generate_token(&credentials(), SECRET, EXPIRATION).unwrap();
    let reply = authenticate_credentials(Ok(Results::Valid(credentials())), SECRET, EXPIRATION);
    assert_eq!(reply, Reply::WithToken(status_codes::OKAY, expected));
}

#[test]
fn strength_follows_the_estimate() {
    match strength("fake name", "fake@email.com", "password").unwrap() {
        Strength::Weak(issues) => {
            assert_eq!(issues.message, "Password is not strong enough");
            assert!(issues.warning.is_some());
        }
        other => panic!("\"password\" was judged {:?}", other),
    }
    match strength("fake name", "fake@email.com", "Tr0ub4dor&3-horse-Staple!").unwrap() {
        Strength::Strong | Strength::Moderate => {}
        other => panic!("a long mixed password was judged {:?}", other),
    }
    assert_eq!(
        strength("fake name", "fake@email.com", "").err().unwrap().to_string(),
        "Zxcvbn cannot evaluate a blank password"
    );
    assert_eq!(Strength::Strong.to_string(), "Password strength is strong");
    assert_eq!(Strength::Moderate.to_string(), "Password strength is moderate");
}

#[test]
fn the_user_name_weakens_a_password_that_repeats_it() {
    match strength("skywalker1977", "luke@rebels.org", "skywalker1977").unwrap() {
        Strength::Weak(_) => {}
        other => panic!("a password equal to the name was judged {:?}", other),
    }
}

#[test]
fn password_checks_mean_what_the_hasher_said() {
    assert_eq!(verification_outcome(Ok(true)), Ok(true));
    assert_eq!(verification_outcome(Ok(false)), Ok(false));
    assert_eq!(verification_outcome(Err(VerifyFailure::HashDecode)), Ok(false));
    assert_eq!(
        verification_outcome(Err(VerifyFailure::Other(String::from("bad")))),
        Err(Error::InternalServerError(String::from("bad")))
    );
}

#[test]
fn settings_have_their_defaults() {
    assert_eq!(expiration(None), 500000);
    assert_eq!(expiration(Some("3600")), 3600);
    assert_eq!(expiration(Some("soon")), 500000);
    assert_eq!(jwt_secret(None), "");
    assert_eq!(jwt_secret(Some(String::from("s3cr3t"))), "s3cr3t");
    assert_eq!(hash_secret(None), "");
    assert_eq!(lanes(None), 8);
    assert_eq!(lanes(Some("4")), 4);
    assert_eq!(time_cost(None), 10);
    assert_eq!(memory_usage(None), 2048);
    assert_eq!(memory_usage(Some("4096")), 4096);
}

const NOW: u64 = 1_600_000_000;

fn password_reset_request(created_at: u64) -> PasswordResetRequest {
    PasswordResetRequest {
        id: String::from("reset-1"),
        user_id: String::from("a2c4e6"),
        reset_token: String::from("$argon2id$token"),
        created_at,
    }
}

fn password_reset_data(password: &str) -> ResetConfirmation {
    ResetConfirmation {
        id: String::from("reset-1"),
        reset_token: String::from("plain token"),
        password: String::from(password),
    }
}

fn reset_outcome(step: Step<ResetResult>) -> Result<ResetResult, Error> {
    match step {
        Step::Finish(result) => result,
        Step::Perform(work) => panic!("expected a result, got work {:?}", work),
    }
}

#[test]
fn returns_gone_if_the_reset_request_has_expired() {
    let (resetting, _) = begin_reset_password(password_reset_data("Tr0ub4dor&3-horse-Staple!"), NOW);
    let record = password_reset_request(NOW - PASSWORD_RESET_TIME_PERIOD);
    let (_, step) = resetting.resume(Answer::ResetRequest(Some(record)));
    let result = reset_password(reset_outcome(step));
    assert_eq!(status(&result), status_codes::GONE);
}

#[test]
fn a_reset_request_just_inside_its_period_is_not_expired() {
    let (resetting, _) = begin_reset_password(password_reset_data("Tr0ub4dor&3-horse-Staple!"), NOW);
    let record = password_reset_request(NOW - PASSWORD_RESET_TIME_PERIOD + 1);
    let (_, step) = resetting.resume(Answer::ResetRequest(Some(record)));
    assert!(matches!(step, Step::Perform(Work::VerifyPassword { .. })));
}

#[test]
fn a_reset_request_from_the_future_is_a_clock_error() {
    let (resetting, _) = begin_reset_password(password_reset_data("Tr0ub4dor&3-horse-Staple!"), NOW);
    let (_, step) = resetting.resume(Answer::ResetRequest(Some(password_reset_request(NOW + 7))));
    assert_eq!(reset_outcome(step), Err(Error::SystemTimeError(7)));
}

#[test]
fn reset_password_returns_forbidden_when_a_password_is_too_weak() {
    let (resetting, _) = begin_reset_password(password_reset_data("password"), NOW);
    let (resetting, _) = resetting.resume(Answer::ResetRequest(Some(password_reset_request(NOW))));
    let (_, step) = resetting.resume(Answer::Verified(Ok(true)));
    let result = reset_password(reset_outcome(step));
    assert_eq!(status(&result), status_codes::FORBIDDEN);
    assert!(matches!(result, Reply::WithIssues(_, _)));
}

#[test]
fn a_weak_new_password_with_a_wrong_token_is_an_invalid_token() {
    let (resetting, _) = begin_reset_password(password_reset_data("password"), NOW);
    let (resetting, _) = resetting.resume(Answer::ResetRequest(Some(password_reset_request(NOW))));
    let (_, step) = resetting.resume(Answer::Verified(Ok(false)));
    assert_eq!(reset_outcome(step), Ok(ResetResult::InvalidToken));
}

#[test]
fn an_empty_new_password_cannot_be_estimated() {
    let (resetting, _) = begin_reset_password(password_reset_data(""), NOW);
    let (resetting, _) = resetting.resume(Answer::ResetRequest(Some(password_reset_request(NOW))));
    let (_, step) = resetting.resume(Answer::Verified(Ok(true)));
    let result = reset_password(reset_outcome(step));
    assert_eq!(status(&result), status_codes::INTERNAL_SERVER_ERROR);
}

/// Runs a creation against a store that holds `existing` (a name and an
/// email), hashing by prefixing; gives the outcome and what was stored.
fn run_creation(request: FullRequest, existing: Option<(&str, &str)>) -> (Result<SaveResults, Error>, Vec<FullRequest>) {
    let mut stored: Vec<FullRequest> = Vec::new();
    let (mut machine, mut step) = create(request);
    loop {
        let work = match step {
            Step::Finish(result) => return (result, stored),
            Step::Perform(work) => work,
        };
        let answer = match work {
            Work::CredentialStatus { name, email } => match existing {
                Some((n, e)) if n == name || e == email => Answer::Status(CredentialStatus::Exists),
                _ => Answer::Status(CredentialStatus::Unused),
            },
            Work::HashPassword(password) => Answer::Hashed(Ok(format!("$argon2id${}", password))),
            Work::SaveCredentials(record) => {
                stored.push(record.clone());
                Answer::Stored(Credentials {
                    id: String::from("a2c4e6"),
                    name: record.name,
                    email: record.email,
                    hash: record.password,
                    locked_at: None,
                })
            },
            other => panic!("unexpected work {:?}", other),
        };
        let (next_machine, next_step) = machine.resume(answer);
        machine = next_machine;
        step = next_step;
    }
}

fn fake_request(password: &str) -> FullRequest {
    FullRequest {
        name: String::from("fake name"),
        email: String::from("fake@email.com"),
        password: String::from(password),
    }
}

#[test]
fn save_credentials_success_status() {
    let (result, _) = run_creation(fake_request("Tr0ub4dor&3-horse-Staple!"), None);
    let resp = save_credentials(result, SECRET, EXPIRATION);
    assert_eq!(status(&resp), status_codes::CREATED);
}

#[test]
fn save_credentials_creates_record() {
    let (_, stored) = run_creation(fake_request("Tr0ub4dor&3-horse-Staple!"), None);
    assert_eq!(stored.len(), 1);
    assert_eq!(&stored[0].name, "fake name");
    assert_eq!(&stored[0].email, "fake@email.com");
    assert_ne!(&stored[0].password, "Tr0ub4dor&3-horse-Staple!");
}

#[test]
fn save_credentials_sets_auth_token() {
    let (result, _) = run_creation(fake_request("Tr0ub4dor&3-horse-Staple!"), None);
    let resp = save_credentials(result, SECRET, EXPIRATION);
    assert!(has_auth_header(&resp));
}

#[test]
fn returns_conflict_if_email_exists() {
    let mut request = fake_request("Tr0ub4dor&3-horse-Staple!");
    request.name = String::from("different name");
    let (result, stored) = run_creation(request, Some(("fake name", "fake@email.com")));
    let resp = save_credentials(result, SECRET, EXPIRATION);
    assert!(stored.is_empty());
    assert_eq!(status(&resp), status_codes::CONFLICT);
}

#[test]
fn does_not_set_auth_token_if_email_exists() {
    let mut request = fake_request("Tr0ub4dor&3-horse-Staple!");
    request.name = String::from("different name");
    let (result, _) = run_creation(request, Some(("fake name", "fake@email.com")));
    let resp = save_credentials(result, SECRET, EXPIRATION);
    assert!(!has_auth_header(&resp));
}

#[test]
fn returns_conflict_if_name_exists() {
    let mut request = fake_request("Tr0ub4dor&3-horse-Staple!");
    request.email = String::from("different email");
    let (result, _) = run_creation(request, Some(("fake name", "fake@email.com")));
    let resp = save_credentials(result, SECRET, EXPIRATION);
    assert_eq!(status(&resp), status_codes::CONFLICT);
}

#[test]
fn does_not_set_auth_token_if_name_exists() {
    let mut request = fake_request("Tr0ub4dor&3-horse-Staple!");
    request.email = String::from("different email");
    let (result, _) = run_creation(request, Some(("fake name", "fake@email.com")));
    let resp = save_credentials(result, SECRET, EXPIRATION);
    assert!(!has_auth_header(&resp));
}

#[test]
fn returns_forbidden_if_password_is_too_weak() {
    let (result, stored) = run_creation(fake_request("password"), None);
    let resp = save_credentials(result, SECRET, EXPIRATION);
    assert!(stored.is_empty());
    assert_eq!(status(&resp), status_codes::FORBIDDEN);
}

#[test]
fn does_not_set_auth_token_if_password_is_too_weak() {
    let (result, _) = run_creation(fake_request("password"), None);
    let resp = save_credentials(result, SECRET, EXPIRATION);
    assert!(!has_auth_header(&resp));
}

fn base64url_decode(text: &str) -> Vec<u8> {
    let alphabet = "ABCDEFGHIJKLMNOPQRSTUVWXYZabcdefghijklmnopqrstuvwxyz0123456789-_";
    let mut bits: u32 = 0;
    let mut count = 0;
    let mut out = Vec::new();
    for c in text.chars() {
        let value = alphabet.find(c).expect("base64url character") as u32;
        bits = (bits << 6) | value;
        count += 6;
        if count >= 8 {
            count -= 8;
            out.push(((bits >> count) & 0xff) as u8);
        }
    }
    out
}

#[test]
fn token_claims_keep_their_order() {
    let token = generate_token(&credentials(), SECRET, EXPIRATION).unwrap();
    let payload = token.split('.').nth(1).unwrap();
    let claims = String::from_utf8(base64url_decode(payload)).unwrap();
    assert_eq!(
        claims,
        "{\"id\":\"a2c4e6\",\"email\":\"fake@email.com\",\"name\":\"fake name\",\"exp\":500000}"
    );
}

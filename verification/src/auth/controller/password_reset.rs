//! Resetting a forgotten password: a reset request hands out a token, and a
//! confirmation that presents the token sets a new password.
use vstd::prelude::*;
use vstd::string::*;
use crate::auth::error::Error;
use crate::auth::configuration::PASSWORD_RESET_TIME_PERIOD;
use crate::auth::model::{Credentials, PasswordResetRequest, ResetConfirmation, ResetToken};
use crate::auth::password::{
    estimated_strength, strength, verification_outcome, verification_result, PasswordIssues, Strength,
    VerifyFailure,
};
use crate::auth::protocol::{Answer, Step, Work};

verus! {

/// Fills `count` bytes from `ring::rand::SystemRandom`. Claimed: bytes that
/// come back are `count` of them. Their values, and whether the source
/// fails, are chance.
#[verifier::external_body]
fn random_bytes(count: usize) -> (bytes: Option<Vec<u8>>)
    ensures
        bytes matches Some(b) ==> b@.len() == count,
{
    let mut buffer = vec![0u8; count];
    match ring::rand::SecureRandom::fill(&ring::rand::SystemRandom::new(), &mut buffer) {
        Ok(()) => Some(buffer),
        Err(_) => None,
    }
}

/// The lower-case hexadecimal digit of `n`.
pub open spec fn hex_char(n: nat) -> char {
    if n < 10 {
        (('0' as nat) + n) as char
    } else {
        (('a' as nat) + n - 10) as char
    }
}

/// Whether `c` is a lower-case hexadecimal digit.
pub open spec fn is_hex_char(c: char) -> bool {
    ('0' <= c <= '9') || ('a' <= c <= 'f')
}

/// The number of random bytes in a token.
pub const TOKEN_BYTES: usize = 32;

/// Whether `text` has the form of a token: the lower-case hexadecimal
/// digits of `TOKEN_BYTES` bytes.
pub open spec fn is_token(text: Seq<char>) -> bool {
    &&& text.len() == 2 * TOKEN_BYTES
    &&& forall|i: int| 0 <= i < text.len() ==> is_hex_char(#[trigger] text[i])
}

fn hex_digit(n: u8) -> (text: &'static str)
    requires
        n < 16,
    ensures
        text@ == seq![hex_char(n as nat)],
        is_hex_char(hex_char(n as nat)),
{
    proof {
        reveal_strlit("0");
        reveal_strlit("1");
        reveal_strlit("2");
        reveal_strlit("3");
        reveal_strlit("4");
        reveal_strlit("5");
        reveal_strlit("6");
        reveal_strlit("7");
        reveal_strlit("8");
        reveal_strlit("9");
        reveal_strlit("a");
        reveal_strlit("b");
        reveal_strlit("c");
        reveal_strlit("d");
        reveal_strlit("e");
        reveal_strlit("f");
    }
    if n == 0 {
        "0"
    } else if n == 1 {
        "1"
    } else if n == 2 {
        "2"
    } else if n == 3 {
        "3"
    } else if n == 4 {
        "4"
    } else if n == 5 {
        "5"
    } else if n == 6 {
        "6"
    } else if n == 7 {
        "7"
    } else if n == 8 {
        "8"
    } else if n == 9 {
        "9"
    } else if n == 10 {
        "a"
    } else if n == 11 {
        "b"
    } else if n == 12 {
        "c"
    } else if n == 13 {
        "d"
    } else if n == 14 {
        "e"
    } else {
        "f"
    }
}

/// The lower-case hexadecimal digits of `bytes`, two per byte, high digit
/// first.
pub open spec fn hex_of(bytes: Seq<u8>) -> Seq<char>
    decreases bytes.len(),
{
    if bytes.len() == 0 {
        Seq::empty()
    } else {
        hex_of(bytes.drop_last()) + seq![hex_char((bytes.last() / 16) as nat), hex_char((bytes.last() % 16) as nat)]
    }
}

/// Writes `bytes` in lower-case hexadecimal.
pub fn hex_text(bytes: &Vec<u8>) -> (text: String)
    ensures
        text@ == hex_of(bytes@),
        text@.len() == 2 * bytes@.len(),
        forall|i: int| 0 <= i < text@.len() ==> is_hex_char(#[trigger] text@[i]),
{
    let mut text = String::new();
    let n = bytes.len();
    for i in 0..n
        invariant
            n == bytes@.len(),
            text@ == hex_of(bytes@.take(i as int)),
            text@.len() == 2 * i,
            forall|j: int| 0 <= j < text@.len() ==> is_hex_char(#[trigger] text@[j]),
    {
        let b = bytes[i];
        let ghost before = text@;
        text.append(hex_digit(b / 16));
        text.append(hex_digit(b % 16));
        assert(bytes@.take(i + 1).drop_last() =~= bytes@.take(i as int));
        assert(text@ =~= before + seq![hex_char((b / 16) as nat), hex_char((b % 16) as nat)]);
        assert forall|j: int| 0 <= j < text@.len() implies is_hex_char(#[trigger] text@[j]) by {
            if j >= before.len() {
                assert(text@[j] == hex_char((b / 16) as nat) || text@[j] == hex_char((b % 16) as nat));
            } else {
                assert(text@[j] == before[j]);
            }
        }
    }
    assert(bytes@.take(n as int) =~= bytes@);
    text
}

/// The message of a failed random source.
pub const RANDOM_FAILURE: &'static str = "ring::error::Unspecified";

/// A fresh random token: `TOKEN_BYTES` random bytes in hexadecimal.
pub fn new_token() -> (token: Result<String, Error>)
    ensures
        match token {
            Ok(t) => is_token(t@),
            Err(e) => e matches Error::InternalServerError(message) && message@ == RANDOM_FAILURE@,
        },
{
    match random_bytes(TOKEN_BYTES) {
        Some(bytes) => Ok(hex_text(&bytes)),
        None => Err(Error::InternalServerError(String::from_str(RANDOM_FAILURE))),
    }
}

/// Where a reset request stands.
#[derive(Debug, PartialEq, Eq)]
pub enum RequestResetStage {
    /// Waiting for the reset request made for the email, if any.
    AwaitRecord,
    /// No account has the email: waiting for the hash of a fresh token, to
    /// answer as if there were one.
    AwaitDummyHash,
    Finished,
}

/// A reset request in progress.
#[derive(Debug, PartialEq, Eq)]
pub struct RequestReset {
    pub email: String,
    pub stage: RequestResetStage,
}

/// Whether `next` is a step that a reset request in `stage` may take on
/// `answer`: a request that was made is handed out; where there was none, a
/// fresh token is hashed and a token that looks the same is handed out
/// (unless the random source fails).
pub open spec fn request_reset_step(
    stage: RequestResetStage,
    answer: Answer,
    next: (RequestResetStage, Step<ResetToken>),
) -> bool {
    match stage {
        RequestResetStage::AwaitRecord => match answer {
            Answer::ResetRequest(Some(record)) => next.0 is Finished && (next.1 matches Step::Finish(Ok(token))
                && token.id@ == record.id@ && token.reset_token@ == record.reset_token@),
            Answer::ResetRequest(None) => (next.0 is AwaitDummyHash && (next.1 matches Step::Perform(
                Work::HashPassword(fresh),
            ) && is_token(fresh@))) || (next.0 is Finished && (next.1 matches Step::Finish(
                Err(Error::InternalServerError(message)),
            ) && message@ == RANDOM_FAILURE@)),
            Answer::Failed(e) => next == (RequestResetStage::Finished, Step::<ResetToken>::Finish(Err(e))),
            _ => next == (RequestResetStage::Finished, Step::<ResetToken>::Finish(Err(Error::UnexpectedAnswer))),
        },
        RequestResetStage::AwaitDummyHash => match answer {
            Answer::Hashed(Ok(hash)) => next.0 is Finished && ((next.1 matches Step::Finish(Ok(token))
                && is_token(token.id@) && token.reset_token@ == hash@) || (next.1 matches Step::Finish(
                Err(Error::InternalServerError(message)),
            ) && message@ == RANDOM_FAILURE@)),
            Answer::Hashed(Err(message)) => next == (
                RequestResetStage::Finished,
                Step::<ResetToken>::Finish(Err(Error::Unauthorized(message))),
            ),
            Answer::Failed(e) => next == (RequestResetStage::Finished, Step::<ResetToken>::Finish(Err(e))),
            _ => next == (RequestResetStage::Finished, Step::<ResetToken>::Finish(Err(Error::UnexpectedAnswer))),
        },
        RequestResetStage::Finished => next == (
            RequestResetStage::Finished,
            Step::<ResetToken>::Finish(Err(Error::UnexpectedAnswer)),
        ),
    }
}

/// Starts a reset request: first a reset request is made for the email.
pub fn request_password_reset(email: &str) -> (started: (RequestReset, Step<ResetToken>))
    ensures
        started.0.email@ == email@,
        started.0.stage is AwaitRecord,
        started.1 matches Step::Perform(Work::GenerateResetRequest(e)) && e@ == email@,
{
    (
        RequestReset { email: String::from_str(email), stage: RequestResetStage::AwaitRecord },
        Step::Perform(Work::GenerateResetRequest(String::from_str(email))),
    )
}

impl RequestReset {
    /// Decides on the answer to the last work asked for.
    pub fn resume(self, answer: Answer) -> (next: (RequestReset, Step<ResetToken>))
        ensures
            next.0.email == self.email,
            request_reset_step(self.stage, answer, (next.0.stage, next.1)),
    {
        let RequestReset { email, stage } = self;
        let (stage, step) = match stage {
            RequestResetStage::AwaitRecord => match answer {
                Answer::ResetRequest(Some(record)) => (
                    RequestResetStage::Finished,
                    Step::Finish(Ok(ResetToken::new(record.id.as_str(), record.reset_token.as_str()))),
                ),
                Answer::ResetRequest(None) => match new_token() {
                    Ok(fresh) => (RequestResetStage::AwaitDummyHash, Step::Perform(Work::HashPassword(fresh))),
                    Err(e) => (RequestResetStage::Finished, Step::Finish(Err(e))),
                },
                Answer::Failed(e) => (RequestResetStage::Finished, Step::Finish(Err(e))),
                _ => (RequestResetStage::Finished, Step::Finish(Err(Error::UnexpectedAnswer))),
            },
            RequestResetStage::AwaitDummyHash => match answer {
                Answer::Hashed(Ok(hash)) => match new_token() {
                    Ok(id) => (
                        RequestResetStage::Finished,
                        Step::Finish(Ok(ResetToken::new(id.as_str(), hash.as_str()))),
                    ),
                    Err(e) => (RequestResetStage::Finished, Step::Finish(Err(e))),
                },
                Answer::Hashed(Err(message)) => (
                    RequestResetStage::Finished,
                    Step::Finish(Err(Error::Unauthorized(message))),
                ),
                Answer::Failed(e) => (RequestResetStage::Finished, Step::Finish(Err(e))),
                _ => (RequestResetStage::Finished, Step::Finish(Err(Error::UnexpectedAnswer))),
            },
            RequestResetStage::Finished => (RequestResetStage::Finished, Step::Finish(Err(Error::UnexpectedAnswer))),
        };
        (RequestReset { email, stage }, step)
    }
}

/// How a reset ends.
#[derive(Clone, Debug, PartialEq, Eq)]
pub enum ResetResult {
    /// The credentials after their password was replaced.
    Success(Credentials),
    /// The token does not match the reset request.
    InvalidToken,
    /// No reset request has the id.
    NotFound,
    /// The reset request is older than `PASSWORD_RESET_TIME_PERIOD`.
    Expired,
    /// The new password is too weak, for these reasons.
    WeakPassword(PasswordIssues),
}

/// Where a reset stands.
#[derive(Debug, PartialEq, Eq)]
pub enum ResetStage {
    /// Waiting for the reset request with the confirmation's id; the new
    /// password's estimated strength.
    AwaitRecord(Result<Strength, Error>),
    /// Waiting for the check of the confirmation's token against this
    /// request's token hash; the new password's estimated strength.
    AwaitVerification(PasswordResetRequest, Result<Strength, Error>),
    /// Waiting for the new password's hash, for this request's user.
    AwaitHash(PasswordResetRequest),
    /// Waiting for the new hash to be stored.
    AwaitUpdate,
    Finished,
}

/// A reset in progress: the confirmation and the time it arrived.
#[derive(Debug, PartialEq, Eq)]
pub struct Reset {
    pub data: ResetConfirmation,
    pub now: u64,
    pub stage: ResetStage,
}

/// What a reset decides once the presented token matched: an estimation
/// error or a weak new password ends it; otherwise the new password is
/// hashed.
pub open spec fn after_matching_token(data: ResetConfirmation, strength: Result<Strength, Error>, request: PasswordResetRequest) -> (
    ResetStage,
    Step<ResetResult>,
) {
    match strength {
        Err(e) => (ResetStage::Finished, Step::Finish(Err(e))),
        Ok(Strength::Weak(issues)) => (ResetStage::Finished, Step::Finish(Ok(ResetResult::WeakPassword(issues)))),
        Ok(_) => (ResetStage::AwaitHash(request), Step::Perform(Work::HashPassword(data.password))),
    }
}

/// The next stage and step of a reset, given the answer to its last work.
/// A request made after `now` is a clock error; one made
/// `PASSWORD_RESET_TIME_PERIOD` or more before `now` has expired, whatever
/// the token.
pub open spec fn reset_transition(
    data: ResetConfirmation,
    now: u64,
    stage: ResetStage,
    answer: Answer,
) -> (ResetStage, Step<ResetResult>) {
    match stage {
        ResetStage::AwaitRecord(strength) => match answer {
            Answer::ResetRequest(None) => (ResetStage::Finished, Step::Finish(Ok(ResetResult::NotFound))),
            Answer::ResetRequest(Some(request)) => if request.created_at > now {
                (ResetStage::Finished, Step::Finish(Err(Error::SystemTimeError((request.created_at - now) as u64))))
            } else if now - request.created_at >= PASSWORD_RESET_TIME_PERIOD {
                (ResetStage::Finished, Step::Finish(Ok(ResetResult::Expired)))
            } else {
                (
                    ResetStage::AwaitVerification(request, strength),
                    Step::Perform(Work::VerifyPassword { password: data.reset_token, hash: request.reset_token }),
                )
            },
            Answer::Failed(e) => (ResetStage::Finished, Step::Finish(Err(e))),
            _ => (ResetStage::Finished, Step::Finish(Err(Error::UnexpectedAnswer))),
        },
        ResetStage::AwaitVerification(request, strength) => match answer {
            Answer::Verified(verified) => match verification_result(verified) {
                Err(e) => (ResetStage::Finished, Step::Finish(Err(e))),
                Ok(true) => after_matching_token(data, strength, request),
                Ok(false) => (ResetStage::Finished, Step::Finish(Ok(ResetResult::InvalidToken))),
            },
            Answer::Failed(e) => (ResetStage::Finished, Step::Finish(Err(e))),
            _ => (ResetStage::Finished, Step::Finish(Err(Error::UnexpectedAnswer))),
        },
        ResetStage::AwaitHash(request) => match answer {
            Answer::Hashed(Ok(hash)) => (
                ResetStage::AwaitUpdate,
                Step::Perform(Work::UpdatePasswordHash { user_id: request.user_id, hash }),
            ),
            Answer::Hashed(Err(message)) => (ResetStage::Finished, Step::Finish(Err(Error::Unauthorized(message)))),
            Answer::Failed(e) => (ResetStage::Finished, Step::Finish(Err(e))),
            _ => (ResetStage::Finished, Step::Finish(Err(Error::UnexpectedAnswer))),
        },
        ResetStage::AwaitUpdate => match answer {
            Answer::Stored(credentials) => (ResetStage::Finished, Step::Finish(Ok(ResetResult::Success(credentials)))),
            Answer::Failed(e) => (ResetStage::Finished, Step::Finish(Err(e))),
            _ => (ResetStage::Finished, Step::Finish(Err(Error::UnexpectedAnswer))),
        },
        ResetStage::Finished => (ResetStage::Finished, Step::Finish(Err(Error::UnexpectedAnswer))),
    }
}

/// Opens a reset at time `now` with the new password's strength: the reset
/// request with the confirmation's id is looked up first.
pub fn begin_reset(data: ResetConfirmation, now: u64, strength: Result<Strength, Error>) -> (started: (
    Reset,
    Step<ResetResult>,
))
    ensures
        started.0.data == data,
        started.0.now == now,
        started.0.stage == ResetStage::AwaitRecord(strength),
        started.1 == Step::<ResetResult>::Perform(Work::ResetRequestById(data.id)),
{
    let id = data.id.clone();
    (Reset { data, now, stage: ResetStage::AwaitRecord(strength) }, Step::Perform(Work::ResetRequestById(id)))
}

/// Starts a reset at time `now`: the new password's strength is estimated,
/// then the reset request with the confirmation's id is looked up.
pub fn reset_password(data: ResetConfirmation, now: u64) -> (started: (Reset, Step<ResetResult>))
    ensures
        started.0.data == data,
        started.0.now == now,
        started.0.stage matches ResetStage::AwaitRecord(s) && estimated_strength(data.password@, seq![Seq::<char>::empty(), Seq::<char>::empty()], s),
        started.1 == Step::<ResetResult>::Perform(Work::ResetRequestById(data.id)),
{
    let none = "";
    proof {
        reveal_strlit("");
        assert(none@ =~= Seq::<char>::empty());
    }
    let estimated = strength(none, none, data.password.as_str());
    let ghost s = estimated;
    let ghost password = data.password@;
    let started = begin_reset(data, now, estimated);
    assert(estimated_strength(password, seq![Seq::<char>::empty(), Seq::<char>::empty()], s));
    started
}

impl Reset {
    /// Decides on the answer to the last work asked for.
    pub fn resume(self, answer: Answer) -> (next: (Reset, Step<ResetResult>))
        ensures
            next.0.data == self.data,
            next.0.now == self.now,
            (next.0.stage, next.1) == reset_transition(self.data, self.now, self.stage, answer),
    {
        let Reset { data, now, stage } = self;
        let (stage, step) = match stage {
            ResetStage::AwaitRecord(strength) => match answer {
                Answer::ResetRequest(None) => (ResetStage::Finished, Step::Finish(Ok(ResetResult::NotFound))),
                Answer::ResetRequest(Some(request)) => {
                    if request.created_at > now {
                        let ahead = request.created_at - now;
                        (ResetStage::Finished, Step::Finish(Err(Error::SystemTimeError(ahead))))
                    } else if now - request.created_at >= PASSWORD_RESET_TIME_PERIOD {
                        (ResetStage::Finished, Step::Finish(Ok(ResetResult::Expired)))
                    } else {
                        let work = Work::VerifyPassword {
                            password: data.reset_token.clone(),
                            hash: request.reset_token.clone(),
                        };
                        (ResetStage::AwaitVerification(request, strength), Step::Perform(work))
                    }
                },
                Answer::Failed(e) => (ResetStage::Finished, Step::Finish(Err(e))),
                _ => (ResetStage::Finished, Step::Finish(Err(Error::UnexpectedAnswer))),
            },
            ResetStage::AwaitVerification(request, strength) => match answer {
                Answer::Verified(verified) => match verification_outcome(verified) {
                    Err(e) => (ResetStage::Finished, Step::Finish(Err(e))),
                    Ok(true) => match strength {
                        Err(e) => (ResetStage::Finished, Step::Finish(Err(e))),
                        Ok(Strength::Weak(issues)) => (
                            ResetStage::Finished,
                            Step::Finish(Ok(ResetResult::WeakPassword(issues))),
                        ),
                        Ok(_) => {
                            let password = data.password.clone();
                            (ResetStage::AwaitHash(request), Step::Perform(Work::HashPassword(password)))
                        },
                    },
                    Ok(false) => (ResetStage::Finished, Step::Finish(Ok(ResetResult::InvalidToken))),
                },
                Answer::Failed(e) => (ResetStage::Finished, Step::Finish(Err(e))),
                _ => (ResetStage::Finished, Step::Finish(Err(Error::UnexpectedAnswer))),
            },
            ResetStage::AwaitHash(request) => match answer {
                Answer::Hashed(Ok(hash)) => (
                    ResetStage::AwaitUpdate,
                    Step::Perform(Work::UpdatePasswordHash { user_id: request.user_id, hash }),
                ),
                Answer::Hashed(Err(message)) => (
                    ResetStage::Finished,
                    Step::Finish(Err(Error::Unauthorized(message))),
                ),
                Answer::Failed(e) => (ResetStage::Finished, Step::Finish(Err(e))),
                _ => (ResetStage::Finished, Step::Finish(Err(Error::UnexpectedAnswer))),
            },
            ResetStage::AwaitUpdate => match answer {
                Answer::Stored(credentials) => (
                    ResetStage::Finished,
                    Step::Finish(Ok(ResetResult::Success(credentials))),
                ),
                Answer::Failed(e) => (ResetStage::Finished, Step::Finish(Err(e))),
                _ => (ResetStage::Finished, Step::Finish(Err(Error::UnexpectedAnswer))),
            },
            ResetStage::Finished => (ResetStage::Finished, Step::Finish(Err(Error::UnexpectedAnswer))),
        };
        (Reset { data, now, stage }, step)
    }
}

/// A password hash is replaced only for the user of the reset request whose
/// token the confirmation presented, and only with a hash the hasher made.
pub proof fn law_password_replaced_only_for_the_requesting_user(
    data: ResetConfirmation,
    now: u64,
    stage: ResetStage,
    answer: Answer,
    user_id: String,
    hash: String,
)
    requires
        reset_transition(data, now, stage, answer).1 == Step::<ResetResult>::Perform(
            Work::UpdatePasswordHash { user_id, hash },
        ),
    ensures
        stage matches ResetStage::AwaitHash(request) && request.user_id == user_id,
        answer == Answer::Hashed(Ok(hash)),
{
}

/// The new password is hashed only after the presented token matched an
/// unexpired reset request, and only where it is not weak.
pub proof fn law_new_password_only_after_a_matching_token(
    data: ResetConfirmation,
    now: u64,
    stage: ResetStage,
    answer: Answer,
    password: String,
)
    requires
        reset_transition(data, now, stage, answer).1 == Step::<ResetResult>::Perform(Work::HashPassword(password)),
    ensures
        stage matches ResetStage::AwaitVerification(_, strength) && (strength matches Ok(s) && !(s is Weak)),
        answer matches Answer::Verified(v) && verification_result(v) == Ok::<bool, Error>(true),
        password == data.password,
{
}

/// The token is checked only against a reset request made less than
/// `PASSWORD_RESET_TIME_PERIOD` before `now`.
pub proof fn law_token_checked_only_before_expiry(
    data: ResetConfirmation,
    now: u64,
    stage: ResetStage,
    answer: Answer,
    password: String,
    hash: String,
)
    requires
        reset_transition(data, now, stage, answer).1 == Step::<ResetResult>::Perform(
            Work::VerifyPassword { password, hash },
        ),
    ensures
        answer matches Answer::ResetRequest(Some(request)) && request.created_at <= now && now - request.created_at
            < PASSWORD_RESET_TIME_PERIOD && request.reset_token == hash,
        password == data.reset_token,
{
}

/// A reset waits on the check of a token only for the reset request it just
/// found, made less than `PASSWORD_RESET_TIME_PERIOD` before `now`, and it
/// carries the new password's strength along unchanged.
pub proof fn law_token_awaited_only_for_unexpired_requests(
    data: ResetConfirmation,
    now: u64,
    stage: ResetStage,
    answer: Answer,
    request: PasswordResetRequest,
    strength: Result<Strength, Error>,
)
    requires
        reset_transition(data, now, stage, answer).0 == ResetStage::AwaitVerification(request, strength),
    ensures
        stage == ResetStage::AwaitRecord(strength),
        answer == Answer::ResetRequest(Some(request)),
        request.created_at <= now,
        now - request.created_at < PASSWORD_RESET_TIME_PERIOD,
{
}

/// A reset waits on the new password's hash, for a reset request, only
/// right after the presented token matched that request and the new
/// password was found not weak.
pub proof fn law_hash_awaited_only_after_a_matching_token(
    data: ResetConfirmation,
    now: u64,
    stage: ResetStage,
    answer: Answer,
    request: PasswordResetRequest,
)
    requires
        reset_transition(data, now, stage, answer).0 == ResetStage::AwaitHash(request),
    ensures
        stage matches ResetStage::AwaitVerification(r, strength) && r == request && (strength matches Ok(s)
            && !(s is Weak)),
        answer matches Answer::Verified(v) && verification_result(v) == Ok::<bool, Error>(true),
{
}

/// A reset request made `PASSWORD_RESET_TIME_PERIOD` or more before `now`
/// ends the reset with `Expired`, whatever token was presented.
pub proof fn law_expired_request_is_refused(
    data: ResetConfirmation,
    now: u64,
    strength: Result<Strength, Error>,
    request: PasswordResetRequest,
)
    requires
        request.created_at <= now,
        now - request.created_at >= PASSWORD_RESET_TIME_PERIOD,
    ensures
        reset_transition(data, now, ResetStage::AwaitRecord(strength), Answer::ResetRequest(Some(request))) == (
            ResetStage::Finished,
            Step::<ResetResult>::Finish(Ok(ResetResult::Expired)),
        ),
{
}

/// A token that does not match ends the reset with `InvalidToken`, whatever
/// the new password.
pub proof fn law_wrong_token_is_refused(
    data: ResetConfirmation,
    now: u64,
    request: PasswordResetRequest,
    strength: Result<Strength, Error>,
    verified: Result<bool, VerifyFailure>,
)
    requires
        verification_result(verified) == Ok::<bool, Error>(false),
    ensures
        reset_transition(data, now, ResetStage::AwaitVerification(request, strength), Answer::Verified(verified))
            == (ResetStage::Finished, Step::<ResetResult>::Finish(Ok(ResetResult::InvalidToken))),
{
}

/// A weak new password, with a matching token, ends the reset with its
/// reasons; the password is not hashed.
pub proof fn law_weak_new_password_is_refused(
    data: ResetConfirmation,
    now: u64,
    request: PasswordResetRequest,
    issues: PasswordIssues,
    verified: Result<bool, VerifyFailure>,
)
    requires
        verification_result(verified) == Ok::<bool, Error>(true),
    ensures
        reset_transition(
            data,
            now,
            ResetStage::AwaitVerification(request, Ok(Strength::Weak(issues))),
            Answer::Verified(verified),
        ) == (ResetStage::Finished, Step::<ResetResult>::Finish(Ok(ResetResult::WeakPassword(issues)))),
{
}

/// A reset answers `InvalidToken` only when the presented token was checked
/// and did not match.
pub proof fn law_invalid_token_only_when_the_check_failed(
    data: ResetConfirmation,
    now: u64,
    stage: ResetStage,
    answer: Answer,
)
    requires
        reset_transition(data, now, stage, answer).1 == Step::<ResetResult>::Finish(Ok(ResetResult::InvalidToken)),
    ensures
        stage is AwaitVerification,
        answer matches Answer::Verified(v) && verification_result(v) == Ok::<bool, Error>(false),
{
}

/// A token that matches, with a new password that is not weak (moderate as
/// well as strong), always leads to hashing the new password for the
/// request's user.
pub proof fn law_matching_token_leads_to_the_new_hash(
    data: ResetConfirmation,
    now: u64,
    request: PasswordResetRequest,
    strength: Strength,
    verified: Result<bool, VerifyFailure>,
)
    requires
        verification_result(verified) == Ok::<bool, Error>(true),
        !(strength is Weak),
    ensures
        reset_transition(data, now, ResetStage::AwaitVerification(request, Ok(strength)), Answer::Verified(verified))
            == (ResetStage::AwaitHash(request), Step::<ResetResult>::Perform(Work::HashPassword(data.password))),
{
}

/// Given the new password's hash, a reset asks to store it for the
/// request's user, and the stored credentials end it with `Success`.
pub proof fn law_new_hash_replaces_the_users_password(
    data: ResetConfirmation,
    now: u64,
    request: PasswordResetRequest,
    hash: String,
    credentials: Credentials,
)
    ensures
        reset_transition(data, now, ResetStage::AwaitHash(request), Answer::Hashed(Ok(hash))) == (
            ResetStage::AwaitUpdate,
            Step::<ResetResult>::Perform(Work::UpdatePasswordHash { user_id: request.user_id, hash }),
        ),
        reset_transition(data, now, ResetStage::AwaitUpdate, Answer::Stored(credentials)) == (
            ResetStage::Finished,
            Step::<ResetResult>::Finish(Ok(ResetResult::Success(credentials))),
        ),
{
}

/// An unknown email is answered as a known one is: with a token, never with
/// a sign that no account has the email (only a failed random source or
/// hasher ends it with an error).
pub proof fn law_unknown_email_is_not_revealed(next: (RequestResetStage, Step<ResetToken>))
    requires
        request_reset_step(RequestResetStage::AwaitRecord, Answer::ResetRequest(None), next),
    ensures
        next.1 is Perform || (next.1 matches Step::Finish(Err(Error::InternalServerError(message)))
            && message@ == RANDOM_FAILURE@),
{
}

} // verus!

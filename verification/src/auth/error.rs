//! The service's errors.
use vstd::prelude::*;
use vstd::string::*;
use crate::database;

verus! {

/// Why the strength of a password could not be estimated.
#[derive(Clone, Copy, Debug, PartialEq, Eq, Structural)]
pub enum PasswordError {
    /// The password is empty.
    BlankPassword,
    /// The clock gave a duration out of range while estimating.
    DurationOutOfRange,
}

/// The message of a blank-password error.
pub const BLANK_PASSWORD_MESSAGE: &'static str = "Zxcvbn cannot evaluate a blank password";
/// The message of a duration error.
pub const DURATION_OUT_OF_RANGE_MESSAGE: &'static str = "Zxcvbn calculation time created a duration out of range";
/// The message of a clock that stands before a recorded time.
pub const SYSTEM_TIME_MESSAGE: &'static str = "second time provided was later than self";
/// The message of an answer that does not fit the work asked for.
pub const UNEXPECTED_ANSWER_MESSAGE: &'static str = "The answer does not fit the work asked for";

/// An error of the authentication service.
#[derive(Debug, Clone, PartialEq, Eq)]
pub enum Error {
    DatabaseError(database::Error),
    InternalServerError(String),
    /// Hashing or checking a password failed; the hasher's message.
    Unauthorized(String),
    PasswordError(PasswordError),
    /// The clock stands this many seconds before a recorded time.
    SystemTimeError(u64),
    BadRequest(String),
    /// The answer to a piece of outside work did not fit what was asked.
    UnexpectedAnswer,
}

impl From<database::Error> for Error {
    fn from(error: database::Error) -> (converted: Error) {
        Error::DatabaseError(error)
    }
}

impl vstd::std_specs::convert::FromSpecImpl<database::Error> for Error {
    open spec fn obeys_from_spec() -> bool {
        true
    }

    open spec fn from_spec(error: database::Error) -> Error {
        Error::DatabaseError(error)
    }
}

impl From<PasswordError> for Error {
    fn from(error: PasswordError) -> (converted: Error) {
        Error::PasswordError(error)
    }
}

impl vstd::std_specs::convert::FromSpecImpl<PasswordError> for Error {
    open spec fn obeys_from_spec() -> bool {
        true
    }

    open spec fn from_spec(error: PasswordError) -> Error {
        Error::PasswordError(error)
    }
}

/// The text of an error.
pub open spec fn error_text(error: Error) -> Seq<char> {
    match error {
        Error::DatabaseError(e) => e.message(),
        Error::InternalServerError(message) => message@,
        Error::Unauthorized(message) => message@,
        Error::PasswordError(PasswordError::BlankPassword) => BLANK_PASSWORD_MESSAGE@,
        Error::PasswordError(PasswordError::DurationOutOfRange) => DURATION_OUT_OF_RANGE_MESSAGE@,
        Error::SystemTimeError(_) => SYSTEM_TIME_MESSAGE@,
        Error::BadRequest(message) => message@,
        Error::UnexpectedAnswer => UNEXPECTED_ANSWER_MESSAGE@,
    }
}

impl Error {
    /// The text of the error.
    pub fn to_string(&self) -> (text: String)
        ensures
            text@ == error_text(*self),
    {
        match self {
            Error::DatabaseError(e) => match e {
                database::Error::Error(message) => message.clone(),
            },
            Error::InternalServerError(message) => message.clone(),
            Error::Unauthorized(message) => message.clone(),
            Error::PasswordError(PasswordError::BlankPassword) => String::from_str(BLANK_PASSWORD_MESSAGE),
            Error::PasswordError(PasswordError::DurationOutOfRange) => String::from_str(
                DURATION_OUT_OF_RANGE_MESSAGE,
            ),
            Error::SystemTimeError(_) => String::from_str(SYSTEM_TIME_MESSAGE),
            Error::BadRequest(message) => message.clone(),
            Error::UnexpectedAnswer => String::from_str(UNEXPECTED_ANSWER_MESSAGE),
        }
    }
}

} // verus!

//! Database settings: the connection text handed to the Postgres driver, and
//! the database error. The pool, the clients and the transactions that use
//! them do their work over the network and stand outside this library.
use vstd::prelude::*;
use vstd::string::*;
use crate::text::{decimal_digits, decimal_text};

verus! {

/// The most connections the pool keeps open.
pub const POOL_SIZE: u32 = 15;

/// The seconds a connection attempt may take.
pub const TIME_OUT: u32 = 10;

/// An error of the database layer, with its message.
#[derive(Debug, Clone, PartialEq, Eq)]
pub enum Error {
    Error(String),
}

impl Error {
    /// The error's message.
    pub open spec fn message(&self) -> Seq<char> {
        match self {
            Error::Error(text) => text@,
        }
    }

    /// The error's message, as text.
    pub fn to_string(&self) -> (text: String)
        ensures
            text@ == self.message(),
    {
        match self {
            Error::Error(message) => message.clone(),
        }
    }

    /// An error carrying `message`.
    pub fn from_message(message: &str) -> (error: Error)
        ensures
            error.message() == message@,
    {
        Error::Error(String::from_str(message))
    }
}

#[verifier::external_type_specification]
#[verifier::external_body]
pub struct ExPostgresConfig(tokio_postgres::Config);

/// The configuration that the Postgres driver reads from `text`, or `None`
/// where it refuses the text.
pub uninterp spec fn postgres_config(text: Seq<char>) -> Option<tokio_postgres::Config>;

/// Reads a connection configuration with `tokio_postgres::Config::from_str`.
/// Claimed: what comes back depends on the text alone.
#[verifier::external_body]
fn parse_postgres_config(text: &str) -> (parsed: Option<tokio_postgres::Config>)
    ensures
        parsed == postgres_config(text@),
{
    text.parse::<tokio_postgres::Config>().ok()
}

/// Where the database is and how to sign in to it.
pub struct Configuration {
    pub password: &'static str,
    pub user: &'static str,
    pub host: &'static str,
    pub port: &'static str,
    pub database: &'static str,
}

/// The message of the error that `build` answers with.
pub const BUILD_FAILURE: &'static str = "Failed to build database configuration.";

impl Configuration {
    /// The key-value text that describes this configuration to the driver.
    pub open spec fn connection_text(&self) -> Seq<char> {
        "dbname="@ + self.database@ + " host="@ + self.host@ + " password='"@ + self.password@
            + "' user="@ + self.user@ + " port="@ + self.port@ + " connect_timeout="@
            + decimal_digits(TIME_OUT as nat)
    }

    /// Writes the text that describes this configuration to the driver.
    pub fn connection_string(&self) -> (text: String)
        ensures
            text@ == self.connection_text(),
    {
        let mut text = String::from_str("dbname=");
        text.append(self.database);
        text.append(" host=");
        text.append(self.host);
        text.append(" password='");
        text.append(self.password);
        text.append("' user=");
        text.append(self.user);
        text.append(" port=");
        text.append(self.port);
        text.append(" connect_timeout=");
        let timeout = decimal_text(TIME_OUT as u64);
        text.append(timeout.as_str());
        text
    }

    /// The configuration that the driver reads from `connection_text`;
    /// where the driver refuses the text, the error `BUILD_FAILURE`.
    pub fn build(&self) -> (config: Result<tokio_postgres::Config, Error>)
        ensures
            match postgres_config(self.connection_text()) {
                Some(c) => config == Ok::<tokio_postgres::Config, Error>(c),
                None => config matches Err(e) && e.message() == BUILD_FAILURE@,
            },
    {
        let text = self.connection_string();
        match parse_postgres_config(text.as_str()) {
            Some(config) => Ok(config),
            None => Err(Error::from_message(BUILD_FAILURE)),
        }
    }
}

} // verus!

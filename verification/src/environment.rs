//! Which deployment the services run in, and settings with defaults.
//!
//! The process environment is read by the caller; these functions decide on
//! the value it found (`None` where the variable is unset).
use vstd::prelude::*;
use vstd::string::*;
use crate::text::str_equal;

verus! {

/// The variable that names the deployment.
pub const ENVIRONMENT: &'static str = "ENVIRONMENT";
pub const PRODUCTION: &'static str = "production";
pub const STAGING: &'static str = "staging";
pub const DEVELOPMENT: &'static str = "development";

/// The value of a variable, or `default` where it is unset.
pub fn env_or_default(value: Option<String>, default: &str) -> (setting: String)
    ensures
        setting@ == match value {
            Some(v) => v@,
            None => default@,
        },
{
    match value {
        Some(v) => v,
        None => String::from_str(default),
    }
}

/// Whether the deployment variable is set, to exactly `target`.
pub fn check_environment(environment: Option<&str>, target: &str) -> (matches: bool)
    ensures
        matches == (environment is Some && environment.unwrap()@ == target@),
{
    match environment {
        Some(e) => str_equal(e, target),
        None => false,
    }
}

/// Whether the services run in production.
pub fn in_production(environment: Option<&str>) -> (production: bool)
    ensures
        production == (environment is Some && environment.unwrap()@ == PRODUCTION@),
{
    check_environment(environment, PRODUCTION)
}

/// Whether the services run in staging.
pub fn in_staging(environment: Option<&str>) -> (staging: bool)
    ensures
        staging == (environment is Some && environment.unwrap()@ == STAGING@),
{
    check_environment(environment, STAGING)
}

/// Whether the services run in development.
pub fn in_development(environment: Option<&str>) -> (development: bool)
    ensures
        development == (environment is Some && environment.unwrap()@ == DEVELOPMENT@),
{
    check_environment(environment, DEVELOPMENT)
}

} // verus!

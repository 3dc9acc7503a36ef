//! The service's settings. The caller reads the variables of the process
//! environment; `None` stands for an unset variable.
pub mod hash;
pub mod jwt;

use vstd::prelude::*;

verus! {

/// Seconds in a day.
pub const ONE_DAY: u64 = 86400;
/// How long an account stays locked after a lock, in seconds.
pub const ACCOUNT_LOCK_DURATION_IN_SECONDS: u64 = ONE_DAY;
/// How long a password reset request stays valid, in seconds.
pub const PASSWORD_RESET_TIME_PERIOD: u64 = ONE_DAY;
/// How many failed logins are allowed.
pub const ALLOWED_FAILED_LOGIN_ATTEMPTS: i16 = 50;

} // verus!

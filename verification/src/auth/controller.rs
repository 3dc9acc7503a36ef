//! The decisions of the service's operations.
pub mod authorization;
pub mod credentials;
pub mod password_reset;

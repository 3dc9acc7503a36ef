//! The authentication service: stored credentials, password strength,
//! tokens, and the decisions of its controllers and handlers.
//!
//! A controller's work alternates with storage and password hashing that
//! the caller performs: each controller is a state machine that asks for one
//! piece of outside work at a time and decides on its answer.
pub mod configuration;
pub mod controller;
pub mod error;
pub mod handler;
pub mod jwt;
pub mod model;
pub mod password;
pub mod protocol;

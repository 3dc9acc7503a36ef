//! ByThePeoples: the verified core of an authentication service and a
//! GraphQL API service, with the helpers they share.
//!
//! - `auth`: credentials, password strength, tokens, and the decisions of
//!   the authentication service's controllers and handlers;
//! - `api`, `api_server`: the models, cache layout and resolver answers of
//!   the GraphQL services;
//! - `database`: the Postgres settings and the database error;
//! - `environment`, `files`, `status_codes`, `text`: shared helpers;
//! - `mocking`: test doubles that answer calls with registered outcomes.
pub mod api;
pub mod api_server;
pub mod auth;
pub mod database;
pub mod environment;
pub mod files;
pub mod mocking;
pub mod status_codes;
pub mod text;

//! The GraphQL API service: its models, where it listens, how humans are
//! cached, and the answers of its resolvers.
pub mod cache;
pub mod connection;
pub mod graph_ql;
pub mod models;
pub mod routes;

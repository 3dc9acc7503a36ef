//! Creating, deleting and updating credentials.
pub mod create;
pub mod delete;
pub mod update;

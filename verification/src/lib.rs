//! Verified core of a task-tracking web service: request validation,
//! password handling, owner identification, list-query construction and
//! the mapping of storage results to responses.

pub mod error;
pub mod query_builder;
pub mod text;
pub mod identity;
pub mod tasks;
pub mod auth;
pub mod listing;
pub mod statements;
pub mod ownership;
pub mod bindings;

//! Request handling and data access for a small todo-list service.
//!
//! The library holds the logic of the service as plain values: the error
//! taxonomy and its HTTP mapping, the mapping of result rows to records,
//! the meaning of each statement's outcome, and the per-request logging
//! decisions. The network, the connection pool and the database driver
//! stay outside. `store` evaluates the four statements in memory, which is
//! where their ordering, limit and conditional-update rules are proved.

pub mod config;
pub mod errors;
pub mod models;
pub mod db;
pub mod handlers;
pub mod store;

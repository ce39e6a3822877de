//! Verified core of a task-management service: authentication errors and
//! their replies, bearer-token handling, password checks, the task
//! endpoints' decisions and the client's request and display rules.

pub mod account;
pub mod auth;
pub mod client;
pub mod decimal;
pub mod error;
pub mod models;
pub mod tasks;
pub mod token;

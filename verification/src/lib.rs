//! A pluggable persistence and session layer for a user-authentication
//! feature: account records with a uniqueness invariant on emails, an
//! interchangeable storage contract with concurrency decorators, a
//! session-token store with time-to-live semantics, and a closed error
//! taxonomy mapped to protocol status codes and a binary error payload.

pub mod decorators;
pub mod error;
pub mod forms;
pub mod laws;
pub mod memory;
pub mod session;
pub mod sql;
pub mod store;
pub mod user;

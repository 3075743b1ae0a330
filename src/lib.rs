//! Authentication and presence core: credential hashing, bearer tokens and
//! sessions, the audit trail, and the per-connection presence state machines.

pub mod activity;
pub mod api;
pub mod auth;
pub mod credential;
pub mod errors;
pub mod events;
pub mod model;
pub mod presence;
pub mod repo;
pub mod store;

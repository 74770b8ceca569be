//! Session-scoped key custody and single-flight signing.
//!
//! A user authenticates against stored credentials, holds at most one
//! signing key, submits at most one message at a time to be signed, and
//! collects the finished signature exactly once.  The state machines and
//! stores live here; the web transport around them does not.

pub mod coordinator;
pub mod db;
pub mod notify;
pub mod random;
pub mod service;
pub mod session;
pub mod strmap;
pub mod web_app;

//! Server-side session security: a registry of authenticated sessions pinned
//! to a client fingerprint, and a registry of anti-forgery tokens.
//!
//! Both registries are passive in-memory stores. Every rule that depends on
//! time exists in two forms: one that takes the current instant as an
//! argument and is fully determined by its inputs, and one that reads the
//! system clock and then applies the first.

pub mod access;
pub mod csrf_protection;
pub mod fingerprint;
pub mod registry;
pub mod session_history;
pub mod session_protection;
pub mod text;
pub mod time;

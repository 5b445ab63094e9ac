//! Administration and load-generation tooling for a pub-sub messaging system.
//!
//! The verified core is the dynamic load-generation control plane under
//! [`perf`]: live configuration, worker pools and their reconciliation.
//! Around it stand the management API's endpoint addresses ([`admin`]), the
//! connection contexts ([`config`]) and the option parsing the commands share.

pub mod admin;
pub mod auth;
pub mod cmd;
pub mod config;
pub mod error;
pub mod perf;
pub mod text;

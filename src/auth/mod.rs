//! Choosing how to authenticate, and the rules around token retrieval.

pub mod auth;
pub mod error;
pub mod oauth2;

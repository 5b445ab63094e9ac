//! The load-generation control plane.

pub mod client;
pub mod config;
pub mod lifecycle;
pub mod plane;
pub mod pool;
pub mod producer;
pub mod ticker;

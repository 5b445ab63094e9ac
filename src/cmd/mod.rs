//! What the commands share.

pub mod commons;
pub mod consume;

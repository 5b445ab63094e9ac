//! The error of the command-line layer.
use vstd::prelude::*;

verus! {

/// Why a command failed.
#[derive(Debug)]
pub enum Error {
    Auth(crate::auth::error::Error),
    /// A local file could not be read; the text says why.
    IO(String),
    PulsarAdmin(crate::admin::error::Error),
    Pulsar(String),
    SerDe(String),
    Custom(String),
}

} // verus!

use vstd::prelude::*;

verus! {

/// Why credentials could not be set up or obtained.
#[derive(Debug)]
pub enum Error {
    /// A credentials file could not be read; the text says why.
    IO(String),
    SerDe(String),
    Custom(String),
}

} // verus!

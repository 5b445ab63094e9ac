use vstd::prelude::*;

verus! {

/// A failure of a management API call.
#[derive(Debug)]
pub enum Error {
    /// A body could not be encoded or decoded.
    SerDe(String),
    /// The call failed; the text says why.
    Custom(String),
}

} // verus!

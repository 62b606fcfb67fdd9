//! The failures that the library reports.
use vstd::prelude::*;

verus! {

/// The one recoverable failure of the hashing interface.
#[derive(Clone, Copy, Debug, PartialEq, Eq, Structural)]
pub enum HashError {
    /// A secret handed to a keyed entry point was shorter than
    /// [`MIN_SECRET_SIZE`](crate::MIN_SECRET_SIZE) bytes.
    InvalidSecretLength,
}

/// The one failure of making a random pool or seed.
#[derive(Clone, Copy, Debug, PartialEq, Eq, Structural)]
pub enum EntropyError {
    /// The operating system could not supply random bytes.
    SourceUnavailable,
}

} // verus!

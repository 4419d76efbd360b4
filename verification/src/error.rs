//! The ways in which the shard store fails.

use vstd::prelude::*;

verus! {

/// Why an operation of the shard store failed.
#[derive(Clone, Copy, Debug, PartialEq, Eq, Structural)]
pub enum StoreError {
    /// A file or a directory could not be read, written or created.
    Io,
    /// The sealing key was not to be had, or sealing, unsealing or hashing
    /// failed.
    Crypto,
    /// Stored state or the name of a shard's directory did not decode.
    Decode,
}

impl StoreError {
    /// A short description of the failure.
    pub fn message(&self) -> (text: &'static str)
        ensures
            text@ == match self {
                StoreError::Io => "storage could not be read or written"@,
                StoreError::Crypto => "sealing, unsealing or hashing failed"@,
                StoreError::Decode => "stored bytes or a shard name did not decode"@,
            },
    {
        match self {
            StoreError::Io => "storage could not be read or written",
            StoreError::Crypto => "sealing, unsealing or hashing failed",
            StoreError::Decode => "stored bytes or a shard name did not decode",
        }
    }
}

} // verus!

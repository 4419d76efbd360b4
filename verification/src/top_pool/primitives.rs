//! Plain descriptions shared by the pool's types.

use vstd::prelude::*;

verus! {

/// Where a trusted operation came from.
#[derive(Clone, Copy, Debug, PartialEq, Eq, Structural)]
pub enum TrustedOperationSource {
    /// It arrived inside a block.
    InBlock,
    /// It was submitted on this node.
    Local,
    /// It was received from another node.
    External,
}

/// A marker that one operation provides and another waits for.
pub type Tag = Vec<u8>;

/// How urgent an operation is; higher goes first.
pub type Priority = u64;

/// The last block height at which an operation is still valid.
pub type Longevity = u64;

} // verus!

//! The operation as the pool stores it.

use crate::top_pool::primitives::{Longevity, Priority, Tag, TrustedOperationSource};
use vstd::prelude::*;

verus! {

/// A pending operation together with the pool's bookkeeping for it.
///
/// The ban cache reads `hash` and `valid_till` and nothing else.
#[derive(Debug)]
pub struct TrustedOperation<Hash, Ex> {
    /// The operation itself.
    pub data: Ex,
    /// Size of the encoded operation in bytes.
    pub bytes: usize,
    /// The operation's hash.
    pub hash: Hash,
    /// The operation's priority.
    pub priority: Priority,
    /// The block height up to which the operation is valid.
    pub valid_till: Longevity,
    /// Tags that must be provided before this operation can run.
    pub requires: Vec<Tag>,
    /// Tags that this operation provides.
    pub provides: Vec<Tag>,
    /// Whether the operation is passed on to other nodes.
    pub propagate: bool,
    /// Where the operation came from.
    pub source: TrustedOperationSource,
}

impl<Hash, Ex> TrustedOperation<Hash, Ex> {
    /// An operation is stale at a block height that its validity does not
    /// exceed: at `valid_till` itself it is stale already.
    pub open spec fn is_stale_at(&self, current_block: u64) -> bool {
        self.valid_till <= current_block
    }
}

} // verus!

//! What the operation pool needs from this crate: the operations it hands
//! over and the cache of banned ones.

pub mod base_pool;
pub mod primitives;
pub mod rotator;

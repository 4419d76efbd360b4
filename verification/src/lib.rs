//! Trusted-side persistence of per-shard state and the ban cache that keeps
//! expired operations from re-entering the operation pool.
//!
//! Nothing in this crate touches a file, a clock or a key. Time comes in as
//! [`time::Instant`] values, and the shard store is driven from outside: its
//! functions say which outside step comes next and what to make of that
//! step's outcome.

pub mod encoding;
pub mod error;
pub mod shard;
pub mod state;
pub mod storage;
pub mod time;
pub mod top_pool;

//! Shard identifiers and where a shard lives on disk.
//!
//! A shard is stored under `<SHARDS_PATH>/<name>/<ENCRYPTED_STATE_FILE>`, where
//! `<name>` is the base-58 text of the identifier's 32 bytes.

use crate::encoding::{
    base58_bytes, base58_text, from_base58, scale_decode_hash, scale_encode_hash, to_base58,
    MAX_BASE58_LEN,
};
use crate::error::StoreError;
use vstd::prelude::*;
use vstd::string::StringExecFns;
use vstd::utf8::encode_utf8;

verus! {

/// The directory that holds one directory per shard.
pub const SHARDS_PATH: &'static str = "./shards";

/// The name of the file that holds a shard's sealed state.
pub const ENCRYPTED_STATE_FILE: &'static str = "state.bin";

/// The number of bytes in an identifier.
pub const HASH_LEN: usize = 32;

/// A 32-byte hash.
#[derive(Clone, Copy, Debug, PartialEq, Eq, Hash)]
pub struct H256(pub [u8; 32]);

/// Names an independently stored partition of the state.
pub type ShardIdentifier = H256;

impl View for H256 {
    type V = Seq<u8>;

    open spec fn view(&self) -> Seq<u8> {
        self.0@
    }
}

impl H256 {
    /// The 32 bytes.
    pub fn as_bytes(&self) -> (bytes: &[u8; 32])
        ensures
            bytes@ == self@,
    {
        &self.0
    }
}

impl From<[u8; 32]> for H256 {
    fn from(bytes: [u8; 32]) -> (hash: H256) {
        H256(bytes)
    }
}

impl vstd::std_specs::convert::FromSpecImpl<[u8; 32]> for H256 {
    open spec fn obeys_from_spec() -> bool {
        true
    }

    open spec fn from_spec(bytes: [u8; 32]) -> H256 {
        H256(bytes)
    }
}

/// The name of a shard's directory: the base-58 text of its identifier.
pub open spec fn shard_name_text(shard: Seq<u8>) -> Seq<char> {
    base58_text(shard)
}

/// The path of a shard's directory.
pub open spec fn shard_path_text(shard: Seq<u8>) -> Seq<char> {
    SHARDS_PATH@ + seq!['/'] + shard_name_text(shard)
}

/// The path of the file that holds a shard's sealed state.
pub open spec fn state_path_text(shard: Seq<u8>) -> Seq<char> {
    shard_path_text(shard) + seq!['/'] + ENCRYPTED_STATE_FILE@
}

/// The identifier that a directory name stands for, if it stands for one.
///
/// The name must be base-58 text of at most [`MAX_BASE58_LEN`] bytes that
/// holds at least 32 bytes; the first 32 are the identifier.
pub open spec fn shard_of_name(name: Seq<char>) -> Option<Seq<u8>> {
    if encode_utf8(name).len() > MAX_BASE58_LEN {
        None
    } else {
        match base58_bytes(name) {
            Some(bytes) => if bytes.len() >= HASH_LEN {
                Some(bytes.subrange(0, HASH_LEN as int))
            } else {
                None
            },
            None => None,
        }
    }
}

/// The name of the directory of `shard`.
pub fn shard_name(shard: &ShardIdentifier) -> (name: String)
    ensures
        name@ == shard_name_text(shard@),
{
    let encoded = scale_encode_hash(shard.as_bytes());
    to_base58(encoded.as_slice())
}

/// The path of the directory of `shard`.
pub fn shard_path(shard: &ShardIdentifier) -> (path: String)
    ensures
        path@ == shard_path_text(shard@),
{
    let name = shard_name(shard);
    proof {
        reveal_strlit("/");
        assert("/"@ =~= seq!['/']);
    }
    String::from_str(SHARDS_PATH).concat("/").concat(name.as_str())
}

/// The path of the file that holds the sealed state of `shard`.
pub fn state_path(shard: &ShardIdentifier) -> (path: String)
    ensures
        path@ == state_path_text(shard@),
{
    proof {
        reveal_strlit("/");
        assert("/"@ =~= seq!['/']);
    }
    shard_path(shard).concat("/").concat(ENCRYPTED_STATE_FILE)
}

/// Reads the identifier that a directory name stands for.
pub fn shard_from_name(name: &str) -> (shard: Result<ShardIdentifier, StoreError>)
    ensures
        match shard {
            Ok(id) => shard_of_name(name@) == Some(id@),
            Err(e) => e == StoreError::Decode && shard_of_name(name@) is None,
        },
{
    if name.as_bytes().len() > MAX_BASE58_LEN {
        return Err(StoreError::Decode);
    }
    match from_base58(name) {
        Ok(bytes) => match scale_decode_hash(bytes.as_slice()) {
            Ok(id) => Ok(H256(id)),
            Err(_) => Err(StoreError::Decode),
        },
        Err(_) => Err(StoreError::Decode),
    }
}

} // verus!

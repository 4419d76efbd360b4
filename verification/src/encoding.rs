//! The outside encodings that the store relies on: base-58 text for
//! directory names and the SCALE codec for what is stored.
//!
//! Nothing here is proved. Each function states what the crate it calls is
//! trusted to do.

use std::collections::BTreeMap;
use vstd::prelude::*;
use vstd::utf8::encode_utf8;

verus! {

/// The longest text, in bytes, that is handed to the base-58 decoder: its
/// buffer holds 132 bytes, and on some longer texts it indexes past it.
pub const MAX_BASE58_LEN: usize = 132;

/// The base-58 text that the `base58` crate gives for `bytes`.
pub uninterp spec fn base58_text(bytes: Seq<u8>) -> Seq<char>;

/// The bytes that the `base58` crate reads from `text`, or `None` where it
/// rejects the text.
pub uninterp spec fn base58_bytes(text: Seq<char>) -> Option<Seq<u8>>;

/// The outside crate's reason for rejecting a text.
#[verifier::external_type_specification]
#[verifier::external_body]
pub struct ExFromBase58Error(base58::FromBase58Error);

/// The outside crate's reason for rejecting encoded bytes.
#[verifier::external_type_specification]
#[verifier::external_body]
pub struct ExCodecError(parity_scale_codec::Error);

/// Calls `base58::ToBase58::to_base58` on a byte slice.
///
/// Trusted: the text is the one that the crate gives for these bytes. The
/// crate is written for inputs of up to 128 bytes, so longer ones are kept
/// out.
#[verifier::external_body]
pub(crate) fn to_base58(bytes: &[u8]) -> (text: String)
    requires
        bytes@.len() <= 128,
    ensures
        text@ == base58_text(bytes@),
{
    base58::ToBase58::to_base58(bytes)
}

/// Calls `base58::FromBase58::from_base58` on a text.
///
/// Trusted: the bytes are the ones that the crate reads from this text, and
/// it fails exactly where the crate rejects the text. A text of more than
/// [`MAX_BASE58_LEN`] bytes is kept out: on some of them the crate indexes
/// past its buffer.
#[verifier::external_body]
pub(crate) fn from_base58(text: &str) -> (bytes: Result<Vec<u8>, base58::FromBase58Error>)
    requires
        encode_utf8(text@).len() <= MAX_BASE58_LEN,
    ensures
        match bytes {
            Ok(b) => base58_bytes(text@) == Some(b@),
            Err(_) => base58_bytes(text@) is None,
        },
{
    base58::FromBase58::from_base58(text)
}

/// Calls `parity_scale_codec::Encode::encode` on a 32-byte array.
///
/// Trusted: an array of bytes is encoded as those bytes, with nothing before
/// or after them.
#[verifier::external_body]
pub(crate) fn scale_encode_hash(bytes: &[u8; 32]) -> (encoded: Vec<u8>)
    ensures
        encoded@ == bytes@,
{
    parity_scale_codec::Encode::encode(bytes)
}

/// Calls `parity_scale_codec::Decode::decode` for a 32-byte array on a byte
/// slice.
///
/// Trusted: decoding takes the first 32 bytes and leaves the rest unread; it
/// fails exactly where fewer than 32 bytes are there.
#[verifier::external_body]
pub(crate) fn scale_decode_hash(input: &[u8]) -> (bytes: Result<
    [u8; 32],
    parity_scale_codec::Error,
>)
    ensures
        bytes is Ok <==> input@.len() >= 32,
        bytes matches Ok(b) ==> b@ == input@.subrange(0, 32),
{
    let mut rest: &[u8] = input;
    <[u8; 32] as parity_scale_codec::Decode>::decode(&mut rest)
}

/// The SCALE encoding that the `parity-scale-codec` crate gives for a map
/// from byte strings to byte strings.
pub uninterp spec fn scale_encoded_map(entries: Map<Seq<u8>, Seq<u8>>) -> Seq<u8>;

/// The map from byte strings to byte strings that the `parity-scale-codec`
/// crate decodes from the front of `bytes`, or `None` where it rejects them.
pub uninterp spec fn scale_decoded_map(bytes: Seq<u8>) -> Option<Map<Seq<u8>, Seq<u8>>>;

/// Whether the codec can encode the map: every length that it writes down,
/// that of the map and that of each key and value, fits in 32 bits.
pub open spec fn scale_encodable(entries: Map<Seq<u8>, Seq<u8>>) -> bool {
    &&& entries.dom().finite()
    &&& entries.len() <= u32::MAX
    &&& forall|key: Seq<u8>| #[trigger]
        entries.contains_key(key) ==> key.len() <= u32::MAX && entries[key].len() <= u32::MAX
}

/// Calls `parity_scale_codec::Encode::encode` on a map from byte strings to
/// byte strings.
///
/// Trusted: the bytes are the crate's encoding of the map's entries, and
/// there is at least one byte, since the encoding starts with the number of
/// entries. The crate gives up on a length beyond 32 bits, so such maps are
/// kept out.
#[verifier::external_body]
pub(crate) fn scale_encode_map(entries: &BTreeMap<Vec<u8>, Vec<u8>>) -> (encoded: Vec<u8>)
    requires
        scale_encodable(entries.deep_view()),
    ensures
        encoded@ == scale_encoded_map(entries.deep_view()),
        encoded@.len() > 0,
{
    parity_scale_codec::Encode::encode(entries)
}

/// Calls `parity_scale_codec::Decode::decode` for a map from byte strings to
/// byte strings on a byte slice.
///
/// Trusted: the map is the one that the crate decodes from the front of
/// these bytes, and it fails exactly where the crate rejects them.
#[verifier::external_body]
pub(crate) fn scale_decode_map(input: &[u8]) -> (entries: Result<
    BTreeMap<Vec<u8>, Vec<u8>>,
    parity_scale_codec::Error,
>)
    ensures
        match entries {
            Ok(map) => scale_decoded_map(input@) == Some(map.deep_view()),
            Err(_) => scale_decoded_map(input@) is None,
        },
{
    let mut rest: &[u8] = input;
    <BTreeMap<Vec<u8>, Vec<u8>> as parity_scale_codec::Decode>::decode(&mut rest)
}

} // verus!

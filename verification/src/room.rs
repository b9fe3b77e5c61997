//! Room identity: the public routing topic derived from the secret key by
//! a one-way hash, `room(key) = hex(SHA-256(key))`.

use sha2::Digest;
use sha2::Sha256;
use vstd::prelude::*;
use vstd::utf8::encode_utf8;

use crate::hexstr::hex_chars;

verus! {

/// What SHA-256 yields: a function of the input bytes alone.
pub uninterp spec fn sha256_of(data: Seq<u8>) -> Seq<u8>;

/// Relies on `sha2::Sha256::digest`: a 32-byte digest that depends on the
/// input bytes alone.
#[verifier::external_body]
pub(crate) fn sha256(data: &[u8]) -> (r: Vec<u8>)
    ensures
        r@ == sha256_of(data@),
        r@.len() == 32,
{
    Sha256::digest(data).to_vec()
}

/// The room identifier of a key: the lowercase hex form of the SHA-256
/// digest of the key's UTF-8 bytes.
pub open spec fn room_of(key: Seq<char>) -> Seq<char> {
    hex_chars(sha256_of(encode_utf8(key)))
}

/// Computes the room identifier of a key.
pub fn derive_room(key: &str) -> (r: String)
    ensures
        r@ == room_of(key@),
        r@.len() == 64,
{
    let digest = sha256(key.as_bytes());
    let r = crate::hexstr::hex_encode(digest.as_slice());
    assert(r@.len() == 64);
    r
}

/// Room derivation is deterministic: two parties holding the same key
/// always compute the same room identifier, with no negotiation round
/// trip.
pub proof fn lemma_room_deterministic(k1: Seq<char>, k2: Seq<char>)
    requires
        k1 == k2,
    ensures
        room_of(k1) == room_of(k2),
{
}

} // verus!

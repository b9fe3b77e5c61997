//! Authenticated encryption: AES-256-GCM with a 96-bit nonce and a 128-bit
//! tag, reached through trusted wrappers around the `aes_gcm` crate.
//!
//! The sealed form is `ciphertext || tag`, named by [`aes256gcm_seal_of`];
//! what opening yields is named by [`aes256gcm_open_of`]. Opening inverts
//! sealing under the same key and nonce — that is the AEAD contract the
//! wrappers rely on.

use aes_gcm::aead::rand_core::RngCore;
use aes_gcm::aead::Aead;
use aes_gcm::aead::KeyInit;
use aes_gcm::aead::OsRng;
use aes_gcm::Aes256Gcm;
use aes_gcm::Key;
use aes_gcm::Nonce;
use vstd::prelude::*;

verus! {

/// Key length of AES-256-GCM, in bytes.
pub const KEY_LEN: usize = 32;

/// Nonce length of AES-256-GCM, in bytes.
pub const NONCE_LEN: usize = 12;

/// Authentication-tag length of AES-256-GCM, in bytes.
pub const TAG_LEN: usize = 16;

/// Longest plaintext AES-GCM accepts, in bytes.
pub const PLAINTEXT_MAX: u64 = 0x10_0000_0000;

/// What sealing yields: `ciphertext || tag`, a function of key, nonce and
/// plaintext alone.
pub uninterp spec fn aes256gcm_seal_of(key: Seq<u8>, nonce: Seq<u8>, plaintext: Seq<u8>) -> Seq<
    u8,
>;

/// What opening yields: the plaintext when `data` is an authentic
/// `ciphertext || tag` under the key and nonce, nothing otherwise. A
/// function of key, nonce and data alone.
pub uninterp spec fn aes256gcm_open_of(key: Seq<u8>, nonce: Seq<u8>, data: Seq<u8>) -> Option<
    Seq<u8>,
>;

/// Relies on `aes_gcm::Aes256Gcm` with `aead::Aead::encrypt`: the result is
/// `ciphertext || tag` with a 16-byte tag and ciphertext as long as the
/// plaintext, it succeeds whenever the plaintext is within the GCM length
/// bound, and `aead::Aead::decrypt` under the same key and nonce recovers
/// the plaintext from it.
#[verifier::external_body]
pub(crate) fn aes256gcm_seal(key: &[u8], nonce: &[u8], plaintext: &[u8]) -> (r: Vec<u8>)
    requires
        key@.len() == KEY_LEN,
        nonce@.len() == NONCE_LEN,
        plaintext@.len() <= PLAINTEXT_MAX,
    ensures
        r@ == aes256gcm_seal_of(key@, nonce@, plaintext@),
        r@.len() == plaintext@.len() + TAG_LEN,
        aes256gcm_open_of(key@, nonce@, r@) == Some(plaintext@),
{
    let cipher = Aes256Gcm::new(Key::<Aes256Gcm>::from_slice(key));
    cipher.encrypt(Nonce::from_slice(nonce), plaintext).unwrap()
}

/// Relies on `aes_gcm::Aes256Gcm` with `aead::Aead::decrypt`: it yields the
/// plaintext exactly when `data` is an authentic `ciphertext || tag` under
/// the key and nonce, and fails on any tag mismatch or too-short input.
#[verifier::external_body]
pub(crate) fn aes256gcm_open(key: &[u8], nonce: &[u8], data: &[u8]) -> (r: Option<Vec<u8>>)
    requires
        key@.len() == KEY_LEN,
        nonce@.len() == NONCE_LEN,
    ensures
        r matches Some(p) ==> aes256gcm_open_of(key@, nonce@, data@) == Some(p@),
        r is None ==> aes256gcm_open_of(key@, nonce@, data@) is None,
{
    let cipher = Aes256Gcm::new(Key::<Aes256Gcm>::from_slice(key));
    match cipher.decrypt(Nonce::from_slice(nonce), data) {
        Ok(p) => Some(p),
        Err(_) => None,
    }
}

/// Relies on `rand_core::OsRng::fill_bytes` (re-exported by `aes_gcm`) for
/// cryptographically secure random bytes; nothing is promised of the
/// values.
#[verifier::external_body]
pub(crate) fn os_random_bytes(n: usize) -> (r: Vec<u8>)
    ensures
        r@.len() == n,
{
    let mut buf = vec![0u8; n];
    OsRng.fill_bytes(&mut buf);
    buf
}

/// Whether a byte sequence is well-formed JSON text, as `serde_json`
/// accepts it: a function of the bytes alone.
pub uninterp spec fn is_valid_json(bytes: Seq<u8>) -> bool;

/// Relies on `serde_json::from_slice::<serde_json::Value>`: it accepts
/// exactly the byte sequences that are UTF-8 encoded JSON text.
#[verifier::external_body]
pub(crate) fn json_valid(bytes: &[u8]) -> (r: bool)
    ensures
        r == is_valid_json(bytes@),
{
    serde_json::from_slice::<serde_json::Value>(bytes).is_ok()
}

} // verus!

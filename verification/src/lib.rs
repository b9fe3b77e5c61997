//! Encrypted relay channel for pairing a desktop signer with a companion
//! wallet application.
//!
//! The channel derives a public "room" identifier from a secret key by a
//! one-way hash, frames every payload in an authenticated-encryption
//! envelope, and supervises the connection to an untrusted publish/subscribe
//! relay. Alongside the channel live the small pure helpers used by the
//! hardware-wallet bridge: derivation-path construction, command-line
//! assembly for the signing binary, and the persisted noise-pairing
//! configuration.

pub mod channel;
pub mod cipher;
pub mod codec;
pub mod device;
pub mod errors;
pub mod hexstr;
pub mod hwi;
pub mod inbound;
pub mod noise;
pub mod room;
pub mod strconv;

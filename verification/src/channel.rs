//! The channel orchestrator: owns the secret key, the room, and the model
//! of the transport connection; encrypts every outbound payload, decrypts
//! inbound envelopes, and generates fresh pairing keys.
//!
//! The transport itself is an outside concern: the channel records whether
//! a connection is live and queues outbound frames in `pending`; the host
//! drains the queue and performs the sends, and reports connect outcomes
//! back through [`ConnectOutcome`].

use vstd::prelude::*;
use vstd::utf8::encode_utf8;

use crate::cipher::aes256gcm_open;
use crate::cipher::aes256gcm_open_of;
use crate::cipher::aes256gcm_seal;
use crate::cipher::aes256gcm_seal_of;
use crate::cipher::is_valid_json;
use crate::cipher::json_valid;
use crate::cipher::os_random_bytes;
use crate::cipher::KEY_LEN;
use crate::cipher::NONCE_LEN;
use crate::cipher::PLAINTEXT_MAX;
use crate::cipher::TAG_LEN;
use crate::codec::decode_envelope_fields;
use crate::codec::encode_envelope;
use crate::codec::field_bytes;
use crate::codec::Envelope;
use crate::codec::EnvelopeFields;
use crate::errors::ChannelError;
use crate::hexstr::hex_chars;
use crate::hexstr::hex_decode;
use crate::hexstr::hex_encode;
use crate::hexstr::lemma_hex_string_round_trip;
use crate::hexstr::parse_hex;
use crate::room::derive_room;
use crate::room::room_of;

verus! {

/// The body of an outbound frame: an envelope, or plain text readable by
/// the relay's own routing logic.
#[derive(Debug, Clone)]
pub enum FrameData {
    Encrypted(Envelope),
    Plain(String),
}

/// One frame queued for the relay: event name, room, body, and an
/// optional network routing hint.
#[derive(Debug, Clone)]
pub struct OutboundFrame {
    pub event: String,
    pub room: String,
    pub data: FrameData,
    pub network: Option<String>,
}

/// How a bounded connect attempt ended.
#[derive(Debug, Clone)]
pub enum ConnectOutcome {
    Connected,
    Failed(String),
    TimedOut,
}

/// The channel state: at most one key, one room, and one live connection,
/// plus the frames awaiting transport.
#[derive(Debug)]
pub struct Channel {
    pub connected: bool,
    pub room: Option<String>,
    pub encryption_key: Option<String>,
    pub pending: Vec<OutboundFrame>,
}

/// Whether a key string is well-formed: hex text naming exactly 32 bytes.
pub open spec fn valid_key(k: Seq<char>) -> bool {
    match parse_hex(encode_utf8(k)) {
        Some(kb) => kb.len() == KEY_LEN,
        None => false,
    }
}

/// The 32 bytes a well-formed key names.
pub open spec fn key_bytes_of(k: Seq<char>) -> Seq<u8>
    recommends
        valid_key(k),
{
    parse_hex(encode_utf8(k)).unwrap()
}

/// What opening an envelope given as decoded parts yields: the plaintext
/// when the key is well-formed, the nonce has 12 bytes, and
/// `ciphertext || tag` is authentic under them; nothing otherwise.
pub open spec fn open_parts(
    key: Seq<char>,
    nonce: Option<Seq<u8>>,
    ciphertext: Option<Seq<u8>>,
    tag: Option<Seq<u8>>,
) -> Option<Seq<u8>> {
    match (nonce, ciphertext, tag) {
        (Some(n), Some(c), Some(t)) => {
            if valid_key(key) && n.len() == NONCE_LEN {
                aes256gcm_open_of(key_bytes_of(key), n, c + t)
            } else {
                None
            }
        },
        _ => None,
    }
}

/// What opening an outbound envelope yields.
pub open spec fn open_envelope(key: Seq<char>, env: Envelope) -> Option<Seq<u8>> {
    open_parts(
        key,
        parse_hex(encode_utf8(env.iv@)),
        parse_hex(encode_utf8(env.encrypted_data@)),
        parse_hex(encode_utf8(env.auth_tag@)),
    )
}

/// What opening the fields of an inbound envelope yields.
pub open spec fn open_fields(key: Seq<char>, fields: EnvelopeFields) -> Option<Seq<u8>> {
    open_parts(
        key,
        field_bytes(fields.iv),
        field_bytes(fields.encrypted_data),
        field_bytes(fields.auth_tag),
    )
}

/// Whether a payload fits under the GCM plaintext bound.
pub open spec fn payload_fits(payload: Seq<char>) -> bool {
    encode_utf8(payload).len() <= PLAINTEXT_MAX
}

/// Whether the channel can encrypt a payload: a well-formed key is set
/// and the payload fits.
pub open spec fn can_encrypt(c: Channel, payload: Seq<char>) -> bool {
    match c.encryption_key {
        Some(k) => valid_key(k@) && payload_fits(payload),
        None => false,
    }
}

/// What decrypting inbound fields yields for this channel: the plaintext
/// when a key is set, the fields open under it, and the plaintext is JSON
/// text; nothing otherwise.
pub open spec fn decrypt_result(c: Channel, fields: EnvelopeFields) -> Option<Seq<u8>> {
    match c.encryption_key {
        Some(k) => match open_fields(k@, fields) {
            Some(p) => if is_valid_json(p) {
                Some(p)
            } else {
                None
            },
            None => None,
        },
        None => None,
    }
}

/// The unencrypted control payload that joins a room.
pub open spec fn join_payload(room: Seq<char>) -> Seq<char> {
    "{\"room\":\""@ + room + "\"}"@
}

/// Whether an inbound event name signals application traffic; every
/// other event is logged and ignored, never handed to the decrypt path.
pub fn is_channel_message(event: &str) -> (r: bool)
    ensures
        r == (event@ == "CHANNEL_MESSAGE"@),
{
    crate::strconv::str_eq(event, "CHANNEL_MESSAGE")
}

impl Channel {
    /// A channel with no key, no room, and no connection.
    pub fn new_empty() -> (c: Self)
        ensures
            !c.connected,
            c.room is None,
            c.encryption_key is None,
            c.pending@.len() == 0,
    {
        Channel { connected: false, room: None, encryption_key: None, pending: Vec::new() }
    }

    /// A fresh channel reflecting how a bounded connect attempt ended: a
    /// connection is held exactly when the attempt succeeded in time, and
    /// no key or room carries over.
    pub fn from_connect(outcome: &ConnectOutcome) -> (c: Self)
        ensures
            c.connected == (outcome matches ConnectOutcome::Connected),
            c.room is None,
            c.encryption_key is None,
            c.pending@.len() == 0,
    {
        Channel {
            connected: matches!(outcome, ConnectOutcome::Connected),
            room: None,
            encryption_key: None,
            pending: Vec::new(),
        }
    }

    /// The error a connect attempt surfaces: `ConnectionTimeout` when the
    /// bound expired, the wrapped transport error when the transport
    /// failed, nothing when it connected.
    pub fn connect_result(outcome: &ConnectOutcome) -> (r: Result<(), ChannelError>)
        ensures
            (outcome matches ConnectOutcome::Connected) <==> r is Ok,
            outcome matches ConnectOutcome::TimedOut ==> r == Err::<(), ChannelError>(
                ChannelError::ConnectionTimeout,
            ),
            outcome matches ConnectOutcome::Failed(m) ==> (r matches Err(e) && e matches
                ChannelError::SocketIoError(mm) && mm@ == m@),
    {
        match outcome {
            ConnectOutcome::Connected => Ok(()),
            ConnectOutcome::Failed(m) => Err(ChannelError::SocketIoError(m.clone())),
            ConnectOutcome::TimedOut => Err(ChannelError::ConnectionTimeout),
        }
    }

    /// Drops the connection. Idempotent: the channel ends disconnected
    /// whether or not it was connected, and nothing else changes. Returns
    /// whether a live transport connection must now be closed.
    pub fn disconnect(&mut self) -> (was_connected: bool)
        ensures
            !final(self).connected,
            final(self).room == old(self).room,
            final(self).encryption_key == old(self).encryption_key,
            final(self).pending == old(self).pending,
            was_connected == old(self).connected,
    {
        let was = self.connected;
        self.connected = false;
        was
    }

    /// Hands the queued frames to the transport and leaves the queue
    /// empty.
    pub fn take_pending(&mut self) -> (frames: Vec<OutboundFrame>)
        ensures
            frames@ == old(self).pending@,
            final(self).pending@.len() == 0,
            final(self).connected == old(self).connected,
            final(self).room == old(self).room,
            final(self).encryption_key == old(self).encryption_key,
    {
        let frames = self.pending.split_off(0);
        assert(frames@ =~= old(self).pending@);
        frames
    }

    /// Encrypts a payload under the active key: a fresh random 12-byte
    /// nonce, AES-256-GCM, and hex framing of nonce, ciphertext and tag.
    fn encrypt_data(&self, payload: &str) -> (r: Result<Envelope, ChannelError>)
        ensures
            self.encryption_key is None ==> r == Err::<Envelope, ChannelError>(
                ChannelError::NoEncryptionKey,
            ),
            self.encryption_key is Some && !can_encrypt(*self, payload@) ==> (r matches Err(e)
                && e is EncryptionError),
            can_encrypt(*self, payload@) ==> (r matches Ok(env)
                && self.encryption_key matches Some(k) && open_envelope(k@, env) == Some(
                encode_utf8(payload@),
            ) && env.iv@.len() == 2 * NONCE_LEN && env.auth_tag@.len() == 2 * TAG_LEN),
    {
        let key_str = match &self.encryption_key {
            Some(k) => k,
            None => {
                return Err(ChannelError::NoEncryptionKey);
            },
        };
        let key_bytes = match hex_decode(key_str.as_str()) {
            Some(v) => v,
            None => {
                return Err(
                    ChannelError::EncryptionError(String::from_str("invalid encryption key")),
                );
            },
        };
        if key_bytes.len() != KEY_LEN {
            return Err(ChannelError::EncryptionError(String::from_str("invalid encryption key")));
        }
        let plaintext = payload.as_bytes();
        if plaintext.len() as u64 > PLAINTEXT_MAX {
            return Err(ChannelError::EncryptionError(String::from_str("payload too long")));
        }
        let nonce = os_random_bytes(NONCE_LEN);
        let sealed = aes256gcm_seal(key_bytes.as_slice(), nonce.as_slice(), plaintext);
        let mut ciphertext = sealed;
        let tag = ciphertext.split_off(ciphertext.len() - TAG_LEN);
        let env = encode_envelope(&nonce, &ciphertext, &tag);
        proof {
            let k = self.encryption_key.unwrap();
            lemma_hex_string_round_trip(nonce@);
            lemma_hex_string_round_trip(ciphertext@);
            lemma_hex_string_round_trip(tag@);
            assert(ciphertext@ + tag@ =~= aes256gcm_seal_of(
                key_bytes@,
                nonce@,
                encode_utf8(payload@),
            ));
            assert(key_bytes_of(k@) == key_bytes@);
            assert(open_envelope(k@, env) == Some(encode_utf8(payload@)));
        }
        Ok(env)
    }

    /// Decrypts an inbound envelope under the active key, failing closed:
    /// no key set fails with `NoEncryptionKey`; a malformed key fails with
    /// `DecryptionError`; a bad `iv` field (absent, not text, not hex, or
    /// not naming 12 bytes) fails with `InvalidIV`; a bad `encryptedData`
    /// or `authTag` field fails with `InvalidEncryptedData`; a tag
    /// mismatch fails with `DecryptionError`; a plaintext that is not
    /// JSON text fails with `JsonError`.
    pub fn decrypt_data(&self, encrypted: &EnvelopeFields) -> (r: Result<Vec<u8>, ChannelError>)
        ensures
            r matches Ok(v) ==> decrypt_result(*self, *encrypted) == Some(v@),
            decrypt_result(*self, *encrypted) is Some ==> r is Ok,
            self.encryption_key is None ==> r == Err::<Vec<u8>, ChannelError>(
                ChannelError::NoEncryptionKey,
            ),
            self.encryption_key matches Some(k) ==> match r {
                Ok(v) => open_fields(k@, *encrypted) == Some(v@) && is_valid_json(v@),
                Err(e) => {
                    &&& !valid_key(k@) ==> e is DecryptionError
                    &&& (valid_key(k@) && field_bytes(encrypted.iv) is None) ==> e
                        == ChannelError::InvalidIV
                    &&& (valid_key(k@) && field_bytes(encrypted.iv) is Some && (field_bytes(
                        encrypted.encrypted_data,
                    ) is None || field_bytes(encrypted.auth_tag) is None)) ==> e
                        == ChannelError::InvalidEncryptedData
                    &&& (valid_key(k@) && field_bytes(encrypted.iv) is Some && field_bytes(
                        encrypted.encrypted_data,
                    ) is Some && field_bytes(encrypted.auth_tag) is Some && field_bytes(
                        encrypted.iv,
                    ).unwrap().len() != NONCE_LEN) ==> e == ChannelError::InvalidIV
                    &&& (open_fields(k@, *encrypted) is Some && !is_valid_json(
                        open_fields(k@, *encrypted).unwrap(),
                    )) ==> e == ChannelError::JsonError
                },
            },
    {
        let key_str = match &self.encryption_key {
            Some(k) => k,
            None => {
                return Err(ChannelError::NoEncryptionKey);
            },
        };
        let key_bytes = match hex_decode(key_str.as_str()) {
            Some(v) => v,
            None => {
                return Err(
                    ChannelError::DecryptionError(String::from_str("invalid encryption key")),
                );
            },
        };
        if key_bytes.len() != KEY_LEN {
            return Err(ChannelError::DecryptionError(String::from_str("invalid encryption key")));
        }
        let (nonce, ciphertext, tag) = match decode_envelope_fields(encrypted) {
            Ok(t) => t,
            Err(e) => {
                return Err(e);
            },
        };
        if nonce.len() != NONCE_LEN {
            return Err(ChannelError::InvalidIV);
        }
        let mut data = ciphertext;
        let mut tag = tag;
        data.append(&mut tag);
        match aes256gcm_open(key_bytes.as_slice(), nonce.as_slice(), data.as_slice()) {
            Some(p) => {
                if json_valid(p.as_slice()) {
                    Ok(p)
                } else {
                    Err(ChannelError::JsonError)
                }
            },
            None => Err(ChannelError::DecryptionError(String::from_str("authentication failed"))),
        }
    }

    /// Queues an event for the current room. Without `skip_encryption` the
    /// payload is sealed under the active key first; with it the payload
    /// travels as plain text (control messages the relay itself must
    /// read). Fails with `NoEncryptionKey` or `EncryptionError` before the
    /// room is consulted, then `NoRoom` without a room, then `NoClient`
    /// without a connection.
    pub fn emit(
        &mut self,
        event: &str,
        payload: &str,
        skip_encryption: bool,
        network: Option<&str>,
    ) -> (r: Result<(), ChannelError>)
        ensures
            final(self).connected == old(self).connected,
            final(self).room == old(self).room,
            final(self).encryption_key == old(self).encryption_key,
            r is Err ==> final(self).pending == old(self).pending,
            !skip_encryption && old(self).encryption_key is None ==> r == Err::<(), ChannelError>(
                ChannelError::NoEncryptionKey,
            ),
            !skip_encryption && old(self).encryption_key is Some && !can_encrypt(
                *old(self),
                payload@,
            ) ==> (r matches Err(e) && e is EncryptionError),
            (skip_encryption || can_encrypt(*old(self), payload@)) ==> {
                &&& old(self).room is None ==> r == Err::<(), ChannelError>(ChannelError::NoRoom)
                &&& old(self).room is Some && !old(self).connected ==> r == Err::<
                    (),
                    ChannelError,
                >(ChannelError::NoClient)
                &&& old(self).room is Some && old(self).connected ==> r is Ok
            },
            r is Ok ==> {
                &&& final(self).pending@.len() == old(self).pending@.len() + 1
                &&& final(self).pending@.drop_last() == old(self).pending@
                &&& {
                    let f = final(self).pending@.last();
                    &&& f.event@ == event@
                    &&& old(self).room matches Some(rm) && f.room@ == rm@
                    &&& match network {
                        Some(nw) => f.network matches Some(s) && s@ == nw@,
                        None => f.network is None,
                    }
                    &&& if skip_encryption {
                        f.data matches FrameData::Plain(s) && s@ == payload@
                    } else {
                        f.data matches FrameData::Encrypted(env) && old(
                            self,
                        ).encryption_key matches Some(k) && open_envelope(k@, env) == Some(
                            encode_utf8(payload@),
                        )
                    }
                }
            },
    {
        let data = if !skip_encryption {
            match self.encrypt_data(payload) {
                Ok(env) => FrameData::Encrypted(env),
                Err(e) => {
                    return Err(e);
                },
            }
        } else {
            FrameData::Plain(String::from_str(payload))
        };
        let room = match &self.room {
            Some(rm) => rm.clone(),
            None => {
                return Err(ChannelError::NoRoom);
            },
        };
        if !self.connected {
            return Err(ChannelError::NoClient);
        }
        let network_tag = match network {
            Some(nw) => Some(String::from_str(nw)),
            None => None,
        };
        let frame = OutboundFrame {
            event: String::from_str(event),
            room,
            data,
            network: network_tag,
        };
        self.pending.push(frame);
        Ok(())
    }

    /// Draws a fresh 32-byte key, installs it as the active key, derives
    /// and installs the room, and queues the unencrypted `JOIN_CHANNEL`
    /// control frame for that room. Returns the key for out-of-band
    /// pairing. The key and room are installed even when queueing fails
    /// for want of a connection.
    pub fn generate_encryption_key(&mut self) -> (r: Result<String, ChannelError>)
        ensures
            final(self).connected == old(self).connected,
            final(self).encryption_key matches Some(k) && k@.len() == 64 && valid_key(k@) && (
            final(self).room matches Some(rm) && rm@ == room_of(k@)) && (exists|raw: Seq<u8>|
                raw.len() == 32 && k@ == hex_chars(raw)),
            old(self).connected <==> r is Ok,
            !old(self).connected ==> r == Err::<String, ChannelError>(ChannelError::NoClient)
                && final(self).pending == old(self).pending,
            r matches Ok(key) ==> {
                &&& final(self).encryption_key matches Some(k) && key@ == k@
                &&& final(self).pending@.len() == old(self).pending@.len() + 1
                &&& final(self).pending@.drop_last() == old(self).pending@
                &&& {
                    let f = final(self).pending@.last();
                    &&& f.event@ == "JOIN_CHANNEL"@
                    &&& final(self).room matches Some(rm) && f.room@ == rm@ && (
                    f.data matches FrameData::Plain(s) && s@ == join_payload(rm@))
                    &&& f.network is None
                }
            },
    {
        let raw = os_random_bytes(KEY_LEN);
        let key = hex_encode(raw.as_slice());
        proof {
            lemma_hex_string_round_trip(raw@);
            assert(raw@.len() == 32 && key@ == hex_chars(raw@));
        }
        let room = derive_room(key.as_str());
        self.encryption_key = Some(key.clone());
        self.room = Some(room.clone());
        let payload = String::from_str("{\"room\":\"").concat(room.as_str()).concat("\"}");
        match self.emit("JOIN_CHANNEL", payload.as_str(), true, None) {
            Ok(()) => Ok(key),
            Err(e) => Err(e),
        }
    }
}

} // verus!

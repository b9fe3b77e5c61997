//! Envelope codec: the authenticated-encryption output `(nonce,
//! ciphertext, tag)` crosses the relay as `{iv, encryptedData, authTag}`,
//! each field lowercase hex. Decoding is the exact inverse; a field that
//! is absent, not text, or not hex fails with `InvalidIV` (for the nonce)
//! or `InvalidEncryptedData` (for the other two), and no field is ever
//! defaulted.

use vstd::prelude::*;
use vstd::utf8::encode_utf8;

use crate::errors::ChannelError;
use crate::hexstr::hex_chars;
use crate::hexstr::lemma_hex_string_round_trip;
use crate::hexstr::parse_hex;

verus! {

/// The transport form of one authenticated-encryption output.
#[derive(Debug, Clone)]
pub struct Envelope {
    /// Hex form of the 12-byte nonce.
    pub iv: String,
    /// Hex form of the ciphertext.
    pub encrypted_data: String,
    /// Hex form of the 16-byte authentication tag.
    pub auth_tag: String,
}

/// One field of an incoming JSON object: absent, present but not text, or
/// text.
#[derive(Debug, Clone)]
pub enum FieldVal {
    Absent,
    NotText,
    Text(String),
}

/// The envelope-relevant fields of an incoming JSON object.
#[derive(Debug, Clone)]
pub struct EnvelopeFields {
    pub iv: FieldVal,
    pub encrypted_data: FieldVal,
    pub auth_tag: FieldVal,
}

/// The bytes a field decodes to: text that parses as hex, nothing
/// otherwise.
pub open spec fn field_bytes(f: FieldVal) -> Option<Seq<u8>> {
    match f {
        FieldVal::Text(s) => parse_hex(encode_utf8(s@)),
        _ => None,
    }
}

impl FieldVal {
    /// Whether the field is present at all.
    pub open spec fn is_present(&self) -> bool {
        !(self matches FieldVal::Absent)
    }
}

/// Encodes an authenticated-encryption output as an envelope.
pub fn encode_envelope(nonce: &Vec<u8>, ciphertext: &Vec<u8>, tag: &Vec<u8>) -> (env: Envelope)
    ensures
        env.iv@ == hex_chars(nonce@),
        env.encrypted_data@ == hex_chars(ciphertext@),
        env.auth_tag@ == hex_chars(tag@),
{
    Envelope {
        iv: crate::hexstr::hex_encode(nonce.as_slice()),
        encrypted_data: crate::hexstr::hex_encode(ciphertext.as_slice()),
        auth_tag: crate::hexstr::hex_encode(tag.as_slice()),
    }
}

/// Decodes the three envelope fields back to `(nonce, ciphertext, tag)`.
/// A bad `iv` fails with `InvalidIV`; a bad `encryptedData` or `authTag`
/// fails with `InvalidEncryptedData`; `iv` is checked first, then
/// `encryptedData`, then `authTag`.
pub fn decode_envelope_fields(fields: &EnvelopeFields) -> (r: Result<
    (Vec<u8>, Vec<u8>, Vec<u8>),
    ChannelError,
>)
    ensures
        r matches Ok(t) ==> {
            &&& field_bytes(fields.iv) == Some(t.0@)
            &&& field_bytes(fields.encrypted_data) == Some(t.1@)
            &&& field_bytes(fields.auth_tag) == Some(t.2@)
        },
        r matches Err(e) ==> {
            &&& field_bytes(fields.iv) is None ==> e == ChannelError::InvalidIV
            &&& field_bytes(fields.iv) is Some ==> e == ChannelError::InvalidEncryptedData && (
            field_bytes(fields.encrypted_data) is None || field_bytes(fields.auth_tag) is None)
        },
        r is Err <==> (field_bytes(fields.iv) is None || field_bytes(fields.encrypted_data) is None
            || field_bytes(fields.auth_tag) is None),
{
    let nonce = match decode_hex_field(&fields.iv) {
        Some(v) => v,
        None => {
            return Err(ChannelError::InvalidIV);
        },
    };
    let ciphertext = match decode_hex_field(&fields.encrypted_data) {
        Some(v) => v,
        None => {
            return Err(ChannelError::InvalidEncryptedData);
        },
    };
    let tag = match decode_hex_field(&fields.auth_tag) {
        Some(v) => v,
        None => {
            return Err(ChannelError::InvalidEncryptedData);
        },
    };
    Ok((nonce, ciphertext, tag))
}

/// Decodes one field as hex text.
fn decode_hex_field(f: &FieldVal) -> (r: Option<Vec<u8>>)
    ensures
        r matches Some(v) ==> field_bytes(*f) == Some(v@),
        r is None ==> field_bytes(*f) is None,
{
    match f {
        FieldVal::Text(s) => crate::hexstr::hex_decode(s.as_str()),
        _ => None,
    }
}

/// Decoding inverts encoding: the fields of an encoded envelope decode to
/// exactly the nonce, ciphertext and tag that were encoded.
pub proof fn lemma_envelope_round_trip(nonce: Seq<u8>, ciphertext: Seq<u8>, tag: Seq<u8>)
    ensures
        parse_hex(encode_utf8(hex_chars(nonce))) == Some(nonce),
        parse_hex(encode_utf8(hex_chars(ciphertext))) == Some(ciphertext),
        parse_hex(encode_utf8(hex_chars(tag))) == Some(tag),
{
    lemma_hex_string_round_trip(nonce);
    lemma_hex_string_round_trip(ciphertext);
    lemma_hex_string_round_trip(tag);
}

} // verus!

//! Inbound traffic: the model of a relay message and its normalization.
//!
//! A relay message arrives as a JSON array whose first element carries
//! `requestData` and `network`. The host converts that JSON mechanically
//! into [`InboundMessage`]; the decisions — which field is consulted,
//! when to decrypt, what errors surface — live here, verified.

use vstd::prelude::*;

use crate::channel::decrypt_result;
use crate::channel::Channel;
use crate::codec::EnvelopeFields;

verus! {

/// The `requestData` value of an inbound message: a JSON object, carried
/// with its envelope-relevant fields and its raw text, or any other JSON
/// value, carried as raw text.
#[derive(Debug, Clone)]
pub enum RequestData {
    Object { fields: EnvelopeFields, raw: String },
    Other { raw: String },
}

/// The first element of an inbound message array.
#[derive(Debug, Clone)]
pub struct InboundEntry {
    /// The `requestData` field, absent when the element has none.
    pub request_data: Option<RequestData>,
    /// The `network` field as raw JSON text, absent when the element has
    /// none.
    pub network: Option<String>,
}

/// An inbound relay message: the first element of the array, or nothing
/// when the message is not an array or is empty.
#[derive(Debug, Clone)]
pub struct InboundMessage {
    pub first: Option<InboundEntry>,
}

/// The normalized payload handed to the application layer.
#[derive(Debug, Clone)]
pub enum ProcessedData {
    /// The decrypted plaintext: UTF-8 JSON text.
    Decrypted(Vec<u8>),
    /// An unencrypted value passed through unchanged, as raw JSON text.
    Passthrough(String),
}

/// The normalized inbound message: payload plus network tag.
#[derive(Debug, Clone)]
pub struct ProcessedMessage {
    pub data: ProcessedData,
    pub network: String,
}

/// Why an inbound message was rejected. Decryption failures surface as
/// the single coarse `DecryptFailed`, with no cipher detail.
#[derive(Debug, Clone, PartialEq, Eq, Structural)]
pub enum ProcessError {
    MalformedMessage,
    MissingRequestData,
    MissingNetwork,
    DecryptFailed,
}

impl ProcessError {
    /// The message shown at the application boundary.
    pub fn message(&self) -> (r: String)
        ensures
            r@ == self.message_spec(),
    {
        match self {
            ProcessError::MalformedMessage => String::from_str("Failed to parse message"),
            ProcessError::MissingRequestData => String::from_str("Failed to parse message data"),
            ProcessError::MissingNetwork => String::from_str("Failed to parse message network"),
            ProcessError::DecryptFailed => String::from_str(
                "Failed to decrypt message from channel",
            ),
        }
    }

    /// What `message` returns, for use in contracts.
    pub open spec fn message_spec(&self) -> Seq<char> {
        match self {
            ProcessError::MalformedMessage => "Failed to parse message"@,
            ProcessError::MissingRequestData => "Failed to parse message data"@,
            ProcessError::MissingNetwork => "Failed to parse message network"@,
            ProcessError::DecryptFailed => "Failed to decrypt message from channel"@,
        }
    }
}

/// Whether the `requestData` value looks like an envelope: a JSON object
/// with an `encryptedData` field, whatever that field holds.
pub open spec fn looks_encrypted(rd: RequestData) -> bool {
    match rd {
        RequestData::Object { fields, .. } => fields.encrypted_data.is_present(),
        RequestData::Other { .. } => false,
    }
}

/// The raw text of a `requestData` value.
pub open spec fn raw_of(rd: RequestData) -> Seq<char> {
    match rd {
        RequestData::Object { raw, .. } => raw@,
        RequestData::Other { raw } => raw@,
    }
}

/// The envelope fields of a `requestData` object.
pub open spec fn fields_of(rd: RequestData) -> EnvelopeFields
    recommends
        rd is Object,
{
    match rd {
        RequestData::Object { fields, .. } => fields,
        RequestData::Other { .. } => EnvelopeFields {
            iv: crate::codec::FieldVal::Absent,
            encrypted_data: crate::codec::FieldVal::Absent,
            auth_tag: crate::codec::FieldVal::Absent,
        },
    }
}

impl Channel {
    /// Normalizes an inbound message: takes `requestData` and `network`
    /// from the first element, decrypts `requestData` under the active
    /// key when it looks like an envelope, and passes it through
    /// unchanged otherwise. Fails with `MalformedMessage` when the
    /// message has no first element, `MissingRequestData` or
    /// `MissingNetwork` when a field is absent, and the coarse
    /// `DecryptFailed` when decryption fails for any reason.
    pub fn process_channel_message(&self, message: &InboundMessage) -> (r: Result<
        ProcessedMessage,
        ProcessError,
    >)
        ensures
            message.first is None ==> r == Err::<ProcessedMessage, ProcessError>(
                ProcessError::MalformedMessage,
            ),
            message.first is Some ==> ({
                let entry = message.first.unwrap();
                &&& entry.request_data is None ==> r == Err::<ProcessedMessage, ProcessError>(
                    ProcessError::MissingRequestData,
                )
                &&& entry.request_data is Some && entry.network is None ==> r == Err::<
                    ProcessedMessage,
                    ProcessError,
                >(ProcessError::MissingNetwork)
                &&& entry.request_data is Some && entry.network is Some ==> ({
                    let rd = entry.request_data.unwrap();
                    let nw = entry.network.unwrap();
                    &&& !looks_encrypted(rd) ==> (r matches Ok(pm) && pm.network@ == nw@ && (
                    pm.data matches ProcessedData::Passthrough(s) && s@ == raw_of(rd)))
                    &&& looks_encrypted(rd) ==> ({
                        let fields = fields_of(rd);
                        &&& decrypt_result(*self, fields) is None ==> r == Err::<
                            ProcessedMessage,
                            ProcessError,
                        >(ProcessError::DecryptFailed)
                        &&& decrypt_result(*self, fields) matches Some(p) ==> (r matches Ok(pm)
                            && pm.network@ == nw@ && (pm.data matches ProcessedData::Decrypted(v)
                            && v@ == p))
                    })
                })
            }),
    {
        let entry = match &message.first {
            Some(e) => e,
            None => {
                return Err(ProcessError::MalformedMessage);
            },
        };
        let request_data = match &entry.request_data {
            Some(rd) => rd,
            None => {
                return Err(ProcessError::MissingRequestData);
            },
        };
        let network = match &entry.network {
            Some(nw) => nw,
            None => {
                return Err(ProcessError::MissingNetwork);
            },
        };
        let data = match request_data {
            RequestData::Object { fields, raw } => {
                if matches!(fields.encrypted_data, crate::codec::FieldVal::Absent) {
                    ProcessedData::Passthrough(raw.clone())
                } else {
                    match self.decrypt_data(fields) {
                        Ok(v) => ProcessedData::Decrypted(v),
                        Err(_) => {
                            return Err(ProcessError::DecryptFailed);
                        },
                    }
                }
            },
            RequestData::Other { raw } => ProcessedData::Passthrough(raw.clone()),
        };
        Ok(ProcessedMessage { data, network: network.clone() })
    }
}

} // verus!

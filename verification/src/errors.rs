//! Error taxonomy of the relay channel.

use vstd::prelude::*;

verus! {

/// Failures surfaced by the channel: precondition failures (`NoClient`,
/// `NoRoom`, `NoEncryptionKey`), malformed envelopes on decode (`InvalidIV`,
/// `InvalidEncryptedData`), cipher-level failures (`EncryptionError`,
/// `DecryptionError`), a payload that decrypts to something other than JSON
/// (`JsonError`), transport failures wrapped into one kind
/// (`SocketIoError`), and a bounded connect that expired
/// (`ConnectionTimeout`).
#[derive(Debug, Clone)]
pub enum ChannelError {
    NoClient,
    NoRoom,
    NoEncryptionKey,
    InvalidIV,
    InvalidEncryptedData,
    EncryptionError(String),
    DecryptionError(String),
    JsonError,
    SocketIoError(String),
    ConnectionTimeout,
}

impl ChannelError {
    /// A human-readable description, mirroring the wording shown at the
    /// application boundary.
    pub fn message(&self) -> (r: String)
        ensures
            r@ == self.message_spec(),
    {
        match self {
            ChannelError::NoClient => String::from_str("No client available"),
            ChannelError::NoRoom => String::from_str("No room set"),
            ChannelError::NoEncryptionKey => String::from_str("No encryption key set"),
            ChannelError::InvalidIV => String::from_str("Invalid IV"),
            ChannelError::InvalidEncryptedData => String::from_str("Invalid encrypted data"),
            ChannelError::EncryptionError(m) => String::from_str("Encryption error: ").concat(
                m.as_str(),
            ),
            ChannelError::DecryptionError(m) => String::from_str("Decryption error: ").concat(
                m.as_str(),
            ),
            ChannelError::JsonError => String::from_str("JSON error"),
            ChannelError::SocketIoError(m) => String::from_str("Socket.IO error: ").concat(
                m.as_str(),
            ),
            ChannelError::ConnectionTimeout => String::from_str("Connection timed out"),
        }
    }

    /// What `message` returns, for use in contracts.
    pub open spec fn message_spec(&self) -> Seq<char> {
        match self {
            ChannelError::NoClient => "No client available"@,
            ChannelError::NoRoom => "No room set"@,
            ChannelError::NoEncryptionKey => "No encryption key set"@,
            ChannelError::InvalidIV => "Invalid IV"@,
            ChannelError::InvalidEncryptedData => "Invalid encrypted data"@,
            ChannelError::EncryptionError(m) => "Encryption error: "@ + m@,
            ChannelError::DecryptionError(m) => "Decryption error: "@ + m@,
            ChannelError::JsonError => "JSON error"@,
            ChannelError::SocketIoError(m) => "Socket.IO error: "@ + m@,
            ChannelError::ConnectionTimeout => "Connection timed out"@,
        }
    }
}

} // verus!

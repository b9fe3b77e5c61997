use keeper_channel::channel::Channel;
use keeper_channel::channel::ConnectOutcome;
use keeper_channel::channel::FrameData;
use keeper_channel::codec::Envelope;
use keeper_channel::codec::EnvelopeFields;
use keeper_channel::codec::FieldVal;
use keeper_channel::errors::ChannelError;

use sha2::Digest;

fn envelope_fields(env: &Envelope) -> EnvelopeFields {
    EnvelopeFields {
        iv: FieldVal::Text(env.iv.clone()),
        encrypted_data: FieldVal::Text(env.encrypted_data.clone()),
        auth_tag: FieldVal::Text(env.auth_tag.clone()),
    }
}

fn connected_channel_with_key() -> (Channel, String) {
    let mut ch = Channel::new_empty();
    ch.connected = true;
    let key = ch.generate_encryption_key().expect("key generation on a connected channel");
    ch.take_pending();
    (ch, key)
}

fn emitted_envelope(ch: &mut Channel, payload: &str) -> Envelope {
    ch.emit("CHANNEL_MESSAGE", payload, false, None)
        .expect("emit on a connected channel with a key");
    let frames = ch.take_pending();
    assert_eq!(frames.len(), 1);
    match &frames[0].data {
        FrameData::Encrypted(env) => env.clone(),
        FrameData::Plain(_) => panic!("expected an encrypted frame"),
    }
}

#[test]
fn round_trip_recovers_plaintext() {
    let (mut ch, key) = connected_channel_with_key();
    let env = emitted_envelope(&mut ch, "{\"amount\":1}");

    let mut peer = Channel::new_empty();
    peer.encryption_key = Some(key);
    let plaintext = peer
        .decrypt_data(&envelope_fields(&env))
        .expect("peer with the same key decrypts");
    assert_eq!(plaintext, b"{\"amount\":1}".to_vec());
}

#[test]
fn generated_key_is_64_lowercase_hex() {
    let (_, key) = connected_channel_with_key();
    assert_eq!(key.len(), 64);
    assert!(key.chars().all(|c| c.is_ascii_hexdigit() && !c.is_ascii_uppercase()));
}

#[test]
fn room_matches_independent_sha256() {
    let (ch, key) = connected_channel_with_key();
    let digest = sha2::Sha256::digest(key.as_bytes());
    let expected = hex::encode(digest);
    assert_eq!(ch.room.as_deref(), Some(expected.as_str()));
}

#[test]
fn room_is_stable_across_recomputation() {
    let (ch, key) = connected_channel_with_key();
    let again = keeper_channel::room::derive_room(&key);
    assert_eq!(ch.room.as_deref(), Some(again.as_str()));
}

#[test]
fn generate_key_queues_join_frame() {
    let mut ch = Channel::new_empty();
    ch.connected = true;
    let _key = ch.generate_encryption_key().expect("connected channel");
    let room = ch.room.clone().expect("room set");
    let frames = ch.take_pending();
    assert_eq!(frames.len(), 1);
    assert_eq!(frames[0].event, "JOIN_CHANNEL");
    assert_eq!(frames[0].room, room);
    assert!(frames[0].network.is_none());
    match &frames[0].data {
        FrameData::Plain(s) => assert_eq!(s, &format!("{{\"room\":\"{}\"}}", room)),
        FrameData::Encrypted(_) => panic!("the join frame is unencrypted"),
    }
}

#[test]
fn generate_key_without_connection_fails_but_installs_key() {
    let mut ch = Channel::new_empty();
    let r = ch.generate_encryption_key();
    assert!(matches!(r, Err(ChannelError::NoClient)));
    assert!(ch.encryption_key.is_some());
    assert!(ch.room.is_some());
    assert_eq!(ch.take_pending().len(), 0);
}

#[test]
fn tampered_ciphertext_fails_closed() {
    let (mut ch, key) = connected_channel_with_key();
    let env = emitted_envelope(&mut ch, "{\"amount\":1}");

    let mut peer = Channel::new_empty();
    peer.encryption_key = Some(key);

    for position in 0..env.encrypted_data.len() {
        let mut tampered = env.clone();
        let mut chars: Vec<char> = tampered.encrypted_data.chars().collect();
        chars[position] = if chars[position] == '0' { '1' } else { '0' };
        tampered.encrypted_data = chars.into_iter().collect();
        if tampered.encrypted_data == env.encrypted_data {
            continue;
        }
        let r = peer.decrypt_data(&envelope_fields(&tampered));
        assert!(matches!(r, Err(ChannelError::DecryptionError(_))));
    }
}

#[test]
fn tampered_auth_tag_fails_closed() {
    let (mut ch, key) = connected_channel_with_key();
    let env = emitted_envelope(&mut ch, "{\"amount\":1}");

    let mut peer = Channel::new_empty();
    peer.encryption_key = Some(key);

    for position in 0..env.auth_tag.len() {
        let mut tampered = env.clone();
        let mut chars: Vec<char> = tampered.auth_tag.chars().collect();
        chars[position] = if chars[position] == 'f' { 'e' } else { 'f' };
        tampered.auth_tag = chars.into_iter().collect();
        if tampered.auth_tag == env.auth_tag {
            continue;
        }
        let r = peer.decrypt_data(&envelope_fields(&tampered));
        assert!(matches!(r, Err(ChannelError::DecryptionError(_))));
    }
}

#[test]
fn encrypting_twice_differs_in_nonce_and_ciphertext() {
    let (mut ch, _) = connected_channel_with_key();
    let first = emitted_envelope(&mut ch, "{\"amount\":1}");
    let second = emitted_envelope(&mut ch, "{\"amount\":1}");
    assert_ne!(first.iv, second.iv);
    assert_ne!(first.encrypted_data, second.encrypted_data);
}

#[test]
fn emit_without_key_fails_with_no_encryption_key() {
    let mut ch = Channel::new_empty();
    ch.connected = true;
    ch.room = Some("a".repeat(64));
    let r = ch.emit("CHANNEL_MESSAGE", "{}", false, None);
    assert!(matches!(r, Err(ChannelError::NoEncryptionKey)));
    assert_eq!(ch.take_pending().len(), 0);
}

#[test]
fn decrypt_without_key_fails_with_no_encryption_key() {
    let ch = Channel::new_empty();
    let fields = EnvelopeFields {
        iv: FieldVal::Text("00".repeat(12)),
        encrypted_data: FieldVal::Text("00".to_string()),
        auth_tag: FieldVal::Text("00".repeat(16)),
    };
    let r = ch.decrypt_data(&fields);
    assert!(matches!(r, Err(ChannelError::NoEncryptionKey)));
}

#[test]
fn missing_key_error_precedes_missing_room() {
    let mut ch = Channel::new_empty();
    let r = ch.emit("CHANNEL_MESSAGE", "{}", false, None);
    assert!(matches!(r, Err(ChannelError::NoEncryptionKey)));
}

#[test]
fn emit_without_room_fails_with_no_room() {
    let mut ch = Channel::new_empty();
    ch.connected = true;
    let r = ch.emit("JOIN_CHANNEL", "{}", true, None);
    assert!(matches!(r, Err(ChannelError::NoRoom)));
}

#[test]
fn emit_without_connection_fails_with_no_client() {
    let mut ch = Channel::new_empty();
    ch.room = Some("a".repeat(64));
    let r = ch.emit("JOIN_CHANNEL", "{}", true, None);
    assert!(matches!(r, Err(ChannelError::NoClient)));
}

#[test]
fn emit_carries_network_tag_and_room() {
    let (mut ch, _) = connected_channel_with_key();
    let room = ch.room.clone().unwrap();
    ch.emit("CHANNEL_MESSAGE", "{\"x\":2}", false, Some("TESTNET"))
        .expect("emit succeeds");
    let frames = ch.take_pending();
    assert_eq!(frames.len(), 1);
    assert_eq!(frames[0].event, "CHANNEL_MESSAGE");
    assert_eq!(frames[0].room, room);
    assert_eq!(frames[0].network.as_deref(), Some("TESTNET"));
}

#[test]
fn skip_encryption_sends_payload_as_plain_text() {
    let (mut ch, _) = connected_channel_with_key();
    ch.emit("CHANNEL_MESSAGE", "{\"note\":\"hi\"}", true, None)
        .expect("emit succeeds");
    let frames = ch.take_pending();
    match &frames[0].data {
        FrameData::Plain(s) => assert_eq!(s, "{\"note\":\"hi\"}"),
        FrameData::Encrypted(_) => panic!("skip_encryption must not encrypt"),
    }
}

#[test]
fn timed_out_connect_retains_no_connection() {
    let ch = Channel::from_connect(&ConnectOutcome::TimedOut);
    assert!(!ch.connected);
    assert!(ch.room.is_none());
    assert!(ch.encryption_key.is_none());
    let r = Channel::connect_result(&ConnectOutcome::TimedOut);
    assert!(matches!(r, Err(ChannelError::ConnectionTimeout)));
}

#[test]
fn failed_connect_wraps_transport_error() {
    let ch = Channel::from_connect(&ConnectOutcome::Failed("refused".to_string()));
    assert!(!ch.connected);
    let r = Channel::connect_result(&ConnectOutcome::Failed("refused".to_string()));
    match r {
        Err(ChannelError::SocketIoError(m)) => assert_eq!(m, "refused"),
        _ => panic!("expected a wrapped transport error"),
    }
}

#[test]
fn successful_connect_holds_connection() {
    let ch = Channel::from_connect(&ConnectOutcome::Connected);
    assert!(ch.connected);
    assert!(Channel::connect_result(&ConnectOutcome::Connected).is_ok());
}

#[test]
fn disconnect_is_idempotent() {
    let mut ch = Channel::from_connect(&ConnectOutcome::Connected);
    assert!(ch.disconnect());
    assert!(!ch.connected);
    assert!(!ch.disconnect());
    assert!(!ch.connected);

    let mut never_connected = Channel::new_empty();
    assert!(!never_connected.disconnect());
}

#[test]
fn decrypt_rejects_missing_iv() {
    let (ch, _) = connected_channel_with_key();
    let fields = EnvelopeFields {
        iv: FieldVal::Absent,
        encrypted_data: FieldVal::Text("00".to_string()),
        auth_tag: FieldVal::Text("00".repeat(16)),
    };
    assert!(matches!(ch.decrypt_data(&fields), Err(ChannelError::InvalidIV)));
}

#[test]
fn decrypt_rejects_non_hex_iv() {
    let (ch, _) = connected_channel_with_key();
    let fields = EnvelopeFields {
        iv: FieldVal::Text("zz".repeat(12)),
        encrypted_data: FieldVal::Text("00".to_string()),
        auth_tag: FieldVal::Text("00".repeat(16)),
    };
    assert!(matches!(ch.decrypt_data(&fields), Err(ChannelError::InvalidIV)));
}

#[test]
fn decrypt_rejects_short_iv() {
    let (ch, _) = connected_channel_with_key();
    let fields = EnvelopeFields {
        iv: FieldVal::Text("00".repeat(5)),
        encrypted_data: FieldVal::Text("00".to_string()),
        auth_tag: FieldVal::Text("00".repeat(16)),
    };
    assert!(matches!(ch.decrypt_data(&fields), Err(ChannelError::InvalidIV)));
}

#[test]
fn decrypt_rejects_missing_encrypted_data() {
    let (ch, _) = connected_channel_with_key();
    let fields = EnvelopeFields {
        iv: FieldVal::Text("00".repeat(12)),
        encrypted_data: FieldVal::Absent,
        auth_tag: FieldVal::Text("00".repeat(16)),
    };
    assert!(matches!(ch.decrypt_data(&fields), Err(ChannelError::InvalidEncryptedData)));
}

#[test]
fn decrypt_rejects_non_text_auth_tag() {
    let (ch, _) = connected_channel_with_key();
    let fields = EnvelopeFields {
        iv: FieldVal::Text("00".repeat(12)),
        encrypted_data: FieldVal::Text("00".to_string()),
        auth_tag: FieldVal::NotText,
    };
    assert!(matches!(ch.decrypt_data(&fields), Err(ChannelError::InvalidEncryptedData)));
}

#[test]
fn decrypt_rejects_forged_envelope() {
    let (ch, _) = connected_channel_with_key();
    let fields = EnvelopeFields {
        iv: FieldVal::Text("00".repeat(12)),
        encrypted_data: FieldVal::Text("abcd".to_string()),
        auth_tag: FieldVal::Text("00".repeat(16)),
    };
    assert!(matches!(ch.decrypt_data(&fields), Err(ChannelError::DecryptionError(_))));
}

#[test]
fn decrypted_non_json_payload_fails_with_json_error() {
    let (mut ch, key) = connected_channel_with_key();
    ch.emit("CHANNEL_MESSAGE", "not json at all", false, None)
        .expect("emit encrypts any text");
    let frames = ch.take_pending();
    let env = match &frames[0].data {
        FrameData::Encrypted(env) => env.clone(),
        FrameData::Plain(_) => panic!("expected an encrypted frame"),
    };
    let mut peer = Channel::new_empty();
    peer.encryption_key = Some(key);
    let r = peer.decrypt_data(&envelope_fields(&env));
    assert!(matches!(r, Err(ChannelError::JsonError)));
}

#[test]
fn malformed_key_fails_with_decryption_error() {
    let mut ch = Channel::new_empty();
    ch.encryption_key = Some("zz".repeat(32));
    let fields = EnvelopeFields {
        iv: FieldVal::Text("00".repeat(12)),
        encrypted_data: FieldVal::Text("00".to_string()),
        auth_tag: FieldVal::Text("00".repeat(16)),
    };
    assert!(matches!(ch.decrypt_data(&fields), Err(ChannelError::DecryptionError(_))));
}

#[test]
fn short_key_fails_with_encryption_error_on_emit() {
    let mut ch = Channel::new_empty();
    ch.connected = true;
    ch.room = Some("a".repeat(64));
    ch.encryption_key = Some("abcd".to_string());
    let r = ch.emit("CHANNEL_MESSAGE", "{}", false, None);
    assert!(matches!(r, Err(ChannelError::EncryptionError(_))));
}

#[test]
fn error_messages_match_the_taxonomy() {
    assert_eq!(ChannelError::NoClient.message(), "No client available");
    assert_eq!(ChannelError::NoRoom.message(), "No room set");
    assert_eq!(ChannelError::NoEncryptionKey.message(), "No encryption key set");
    assert_eq!(ChannelError::InvalidIV.message(), "Invalid IV");
    assert_eq!(ChannelError::InvalidEncryptedData.message(), "Invalid encrypted data");
    assert_eq!(
        ChannelError::EncryptionError("x".to_string()).message(),
        "Encryption error: x"
    );
    assert_eq!(
        ChannelError::DecryptionError("y".to_string()).message(),
        "Decryption error: y"
    );
    assert_eq!(ChannelError::ConnectionTimeout.message(), "Connection timed out");
}

#[test]
fn only_the_channel_message_event_reaches_the_decrypt_path() {
    assert!(keeper_channel::channel::is_channel_message("CHANNEL_MESSAGE"));
    assert!(!keeper_channel::channel::is_channel_message("JOIN_CHANNEL"));
    assert!(!keeper_channel::channel::is_channel_message("message"));
    assert!(!keeper_channel::channel::is_channel_message(""));
}

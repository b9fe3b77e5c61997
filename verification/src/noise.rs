//! The persisted noise-pairing configuration of the bitbox device: the
//! keypair and device public keys as they cross the settings file, and
//! the verified conversions between the file form (base64 text) and the
//! in-memory form (raw bytes).
//!
//! Reading and writing the file, and its JSON framing, are the host's
//! concern; every decision in between — decoding, the key-length check,
//! deriving the public key — is verified here.

use base64::Engine;
use vstd::prelude::*;
use vstd::string::StrSliceExecFns;

verus! {

/// A wallet the session addresses: name, miniscript policy, and the
/// registration proof, each optional.
pub struct Wallet<'a> {
    pub name: Option<&'a String>,
    pub policy: Option<&'a String>,
    pub hmac: Option<&'a String>,
}

/// The settings file of the bitbox pairing.
pub const DEFAULT_FILE_NAME: &'static str = "bitbox02.json";

/// The noise pairing data in memory: the app's static private key (32
/// bytes when present) and the device public keys already paired.
#[derive(Debug, Clone)]
pub struct NoiseData {
    pub app_static_privkey: Option<Vec<u8>>,
    pub device_static_pubkeys: Vec<Vec<u8>>,
}

impl NoiseData {
    /// Well-formed noise data carries a 32-byte private key when it
    /// carries one at all.
    pub open spec fn wf(&self) -> bool {
        match self.app_static_privkey {
            Some(sk) => sk@.len() == 32,
            None => true,
        }
    }
}

/// The legacy settings file shape: only the noise configuration.
#[derive(Debug, Clone)]
pub struct Settings {
    pub bitbox: Option<BitboxSettings>,
}

/// The legacy bitbox section.
#[derive(Debug, Clone)]
pub struct BitboxSettings {
    pub noise_config: NoiseData,
}

/// The app's static noise keypair as it stands in the settings file,
/// both halves base64 text.
#[derive(Debug, Clone)]
pub struct AppNoiseStaticKeypair {
    pub private: String,
    pub public: String,
}

/// The bitbox section of the enhanced settings file.
#[derive(Debug, Clone)]
pub struct EnhancedBitboxSettings {
    pub noise_config: NoiseData,
}

/// The enhanced settings file shape: the keypair, the paired device
/// public keys as base64 text, and an optional legacy bitbox section.
#[derive(Debug, Clone)]
pub struct EnhancedSettings {
    pub bitbox: Option<EnhancedBitboxSettings>,
    pub app_noise_static_keypair: AppNoiseStaticKeypair,
    pub device_noise_static_pubkeys: Vec<String>,
}

/// What standard base64 encoding yields: a function of the bytes alone.
pub uninterp spec fn b64_of(b: Seq<u8>) -> Seq<char>;

/// What standard base64 decoding yields: the bytes when the text is
/// well-formed base64, nothing otherwise; a function of the text alone.
pub uninterp spec fn b64_decode_of(s: Seq<char>) -> Option<Seq<u8>>;

/// Relies on `base64::engine::general_purpose::STANDARD.encode`: the
/// result depends on the bytes alone, and decoding it yields the bytes
/// back.
#[verifier::external_body]
pub(crate) fn b64_encode(b: &[u8]) -> (r: String)
    ensures
        r@ == b64_of(b@),
        b64_decode_of(r@) == Some(b@),
{
    base64::engine::general_purpose::STANDARD.encode(b)
}

/// Relies on `base64::engine::general_purpose::STANDARD.decode`: it
/// yields bytes exactly on well-formed standard base64 text.
#[verifier::external_body]
pub(crate) fn b64_decode(s: &str) -> (r: Result<Vec<u8>, String>)
    ensures
        r matches Ok(v) ==> b64_decode_of(s@) == Some(v@),
        r is Err ==> b64_decode_of(s@) is None,
{
    match base64::engine::general_purpose::STANDARD.decode(s) {
        Ok(v) => Ok(v),
        Err(e) => Err(format!("{}", e)),
    }
}

/// What x25519 public-key derivation yields for a 32-byte private key:
/// a function of the key bytes alone.
pub uninterp spec fn x25519_public_of(sk: Seq<u8>) -> Seq<u8>;

/// Relies on `x25519_dalek::StaticSecret::from` and
/// `x25519_dalek::PublicKey::from`: the 32-byte public key is a function
/// of the private key bytes alone.
#[verifier::external_body]
pub(crate) fn x25519_public(sk: &[u8]) -> (r: Vec<u8>)
    requires
        sk@.len() == 32,
    ensures
        r@ == x25519_public_of(sk@),
        r@.len() == 32,
{
    let mut key = [0u8; 32];
    key.copy_from_slice(sk);
    let secret = x25519_dalek::StaticSecret::from(key);
    x25519_dalek::PublicKey::from(&secret).as_bytes().to_vec()
}

/// Decodes a parsed settings file into noise data: the private key and
/// every device public key base64-decoded, failing on malformed base64
/// and on a private key that does not name exactly 32 bytes.
pub fn noise_data_from_settings(settings: &EnhancedSettings) -> (r: Result<NoiseData, String>)
    ensures
        r matches Ok(nd) ==> {
            &&& nd.wf()
            &&& b64_decode_of(settings.app_noise_static_keypair.private@) matches Some(sk)
                && nd.app_static_privkey matches Some(got) && got@ == sk && sk.len() == 32
            &&& nd.device_static_pubkeys@.len() == settings.device_noise_static_pubkeys@.len()
            &&& forall|i: int|
                0 <= i < nd.device_static_pubkeys@.len() ==> b64_decode_of(
                    #[trigger] settings.device_noise_static_pubkeys@[i]@,
                ) == Some(nd.device_static_pubkeys@[i]@)
        },
        r is Err ==> (b64_decode_of(settings.app_noise_static_keypair.private@) is None
            || b64_decode_of(settings.app_noise_static_keypair.private@).unwrap().len() != 32 || (
        exists|i: int|
            0 <= i < settings.device_noise_static_pubkeys@.len() && b64_decode_of(
                #[trigger] settings.device_noise_static_pubkeys@[i]@,
            ) is None)),
{
    let app_static_privkey = match b64_decode(
        settings.app_noise_static_keypair.private.as_str(),
    ) {
        Ok(v) => v,
        Err(e) => {
            return Err(e);
        },
    };
    let mut device_static_pubkeys: Vec<Vec<u8>> = Vec::new();
    let n = settings.device_noise_static_pubkeys.len();
    let mut i: usize = 0;
    while i < n
        invariant
            n == settings.device_noise_static_pubkeys@.len(),
            i <= n,
            device_static_pubkeys@.len() == i,
            forall|j: int|
                0 <= j < i ==> b64_decode_of(
                    #[trigger] settings.device_noise_static_pubkeys@[j]@,
                ) == Some(device_static_pubkeys@[j]@),
        decreases n - i,
    {
        let key = match b64_decode(settings.device_noise_static_pubkeys[i].as_str()) {
            Ok(v) => v,
            Err(e) => {
                return Err(e);
            },
        };
        device_static_pubkeys.push(key);
        i = i + 1;
    }
    if app_static_privkey.len() != 32 {
        return Err(String::from_str("Invalid private key length"));
    }
    Ok(NoiseData { app_static_privkey: Some(app_static_privkey), device_static_pubkeys })
}

/// Encodes noise data for the settings file: the private key and the
/// derived public key in base64, every device public key in base64, and
/// no legacy section. Fails when no private key is present.
pub fn settings_from_noise_data(conf: &NoiseData) -> (r: Result<EnhancedSettings, String>)
    requires
        conf.wf(),
    ensures
        conf.app_static_privkey is None ==> (r matches Err(m) && m@
            == "Missing required noise configuration data"@),
        conf.app_static_privkey matches Some(sk) ==> (r matches Ok(es) && {
            &&& es.bitbox is None
            &&& es.app_noise_static_keypair.private@ == b64_of(sk@)
            &&& es.app_noise_static_keypair.public@ == b64_of(x25519_public_of(sk@))
            &&& es.device_noise_static_pubkeys@.len() == conf.device_static_pubkeys@.len()
            &&& forall|i: int|
                0 <= i < es.device_noise_static_pubkeys@.len()
                    ==> #[trigger] es.device_noise_static_pubkeys@[i]@ == b64_of(
                    conf.device_static_pubkeys@[i]@,
                )
        }),
{
    let priv_key = match &conf.app_static_privkey {
        Some(sk) => sk,
        None => {
            return Err(String::from_str("Missing required noise configuration data"));
        },
    };
    let pub_key = x25519_public(priv_key.as_slice());
    let mut device_noise_static_pubkeys: Vec<String> = Vec::new();
    let n = conf.device_static_pubkeys.len();
    let mut i: usize = 0;
    while i < n
        invariant
            n == conf.device_static_pubkeys@.len(),
            i <= n,
            device_noise_static_pubkeys@.len() == i,
            forall|j: int|
                0 <= j < i ==> #[trigger] device_noise_static_pubkeys@[j]@ == b64_of(
                    conf.device_static_pubkeys@[j]@,
                ),
        decreases n - i,
    {
        let encoded = b64_encode(conf.device_static_pubkeys[i].as_slice());
        device_noise_static_pubkeys.push(encoded);
        i = i + 1;
    }
    Ok(
        EnhancedSettings {
            bitbox: None,
            app_noise_static_keypair: AppNoiseStaticKeypair {
                private: b64_encode(priv_key.as_slice()),
                public: b64_encode(pub_key.as_slice()),
            },
            device_noise_static_pubkeys,
        },
    )
}

/// The persisted noise configuration: where the pairing file lives.
pub struct PersistedBitboxNoiseConfig {
    file_path: String,
}

impl PersistedBitboxNoiseConfig {
    /// Where the pairing file of a data directory lives.
    pub closed spec fn path_spec(&self) -> Seq<char> {
        self.file_path@
    }

    /// Creates a persisting noise config which stores the pairing
    /// information in `bitbox02.json` in the provided directory.
    pub fn new(global_datadir: &str) -> (c: PersistedBitboxNoiseConfig)
        ensures
            c.path_spec() == global_datadir@ + "/"@ + DEFAULT_FILE_NAME@,
    {
        PersistedBitboxNoiseConfig {
            file_path: String::from_str(global_datadir).concat("/").concat(DEFAULT_FILE_NAME),
        }
    }

    /// The path of the pairing file.
    pub fn file_path(&self) -> (r: &str)
        ensures
            r@ == self.path_spec(),
    {
        self.file_path.as_str()
    }
}

} // verus!

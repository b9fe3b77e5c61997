//! Derivation paths and the xpub response for the companion application.
//!
//! The signing binary returns the extended public keys; everything the
//! response derives from them — the three BIP derivation paths and the
//! uppercased master fingerprint — is computed and verified here.

use vstd::prelude::*;

use crate::hwi::HwiError;
use crate::hwi::Network;
use crate::strconv::dec_chars;
use crate::strconv::upper_of;
use crate::strconv::usize_to_string;

verus! {

/// The script kinds the companion application requests keys for.
#[derive(Debug, Clone, PartialEq, Eq, Structural)]
pub enum ScriptType {
    P2WPKH,
    P2WSH,
    P2TR,
}

/// The coin-type index of a network: 0 on mainnet, 1 on every test
/// network.
pub open spec fn network_index(network: Network) -> nat {
    match network {
        Network::Bitcoin => 0,
        _ => 1,
    }
}

/// The derivation path of a script type: BIP-84 for P2WPKH, BIP-48 with
/// script type 2 for P2WSH, BIP-86 for P2TR, each hardened and keyed by
/// network and account.
pub open spec fn derivation_path_chars(
    script_type: ScriptType,
    network: Network,
    account: nat,
) -> Seq<char> {
    let net = dec_chars(network_index(network));
    let acct = dec_chars(account);
    match script_type {
        ScriptType::P2WPKH => "m/84'/"@ + net + "'/"@ + acct + "'"@,
        ScriptType::P2WSH => "m/48'/"@ + net + "'/"@ + acct + "'/2'"@,
        ScriptType::P2TR => "m/86'/"@ + net + "'/"@ + acct + "'"@,
    }
}

/// Builds the derivation path for a script type, network and account.
pub fn get_derivation_path(script_type: &ScriptType, network: &Network, account: usize) -> (r:
    String)
    ensures
        r@ == derivation_path_chars(*script_type, *network, account as nat),
{
    let net = match network {
        Network::Bitcoin => String::from_str("0"),
        _ => String::from_str("1"),
    };
    proof {
        reveal_strlit("0");
        reveal_strlit("1");
        if network_index(*network) == 0 {
            assert(((0x30u8) as char) == '0');
            assert(net@ =~= dec_chars(0));
        } else {
            assert(((0x31u8) as char) == '1');
            assert(net@ =~= dec_chars(1));
        }
    }
    let acct = usize_to_string(account);
    let (prefix, suffix) = match script_type {
        ScriptType::P2WPKH => ("m/84'/", "'"),
        ScriptType::P2WSH => ("m/48'/", "'/2'"),
        ScriptType::P2TR => ("m/86'/", "'"),
    };
    let r = String::from_str(prefix).concat(net.as_str()).concat("'/").concat(
        acct.as_str(),
    ).concat(suffix);
    assert(r@ =~= derivation_path_chars(*script_type, *network, account as nat));
    r
}

/// The xpub response handed back to the companion application.
#[derive(Debug, Clone)]
pub struct XpubData {
    pub single_sig_path: String,
    pub single_sig_xpub: String,
    pub multi_sig_path: String,
    pub multi_sig_xpub: String,
    pub taproot_path: String,
    pub taproot_xpub: String,
    pub mfp: String,
}

/// Assembles the xpub response: the three derivation paths for the given
/// network and account, the three extended public keys as handed in, and
/// the master fingerprint uppercased. Fails when the device fingerprint
/// is missing.
pub fn get_xpubs(
    network: &Network,
    account: usize,
    single_sig_xpub: &str,
    multi_sig_xpub: &str,
    taproot_xpub: &str,
    fingerprint: &Option<String>,
) -> (r: Result<XpubData, HwiError>)
    ensures
        fingerprint is None ==> (r matches Err(e) && e matches HwiError::Hwi(m) && m@
            == "Device fingerpring is missing"@),
        fingerprint matches Some(fp) ==> (r matches Ok(x) && {
            &&& x.single_sig_path@ == derivation_path_chars(
                ScriptType::P2WPKH,
                *network,
                account as nat,
            )
            &&& x.multi_sig_path@ == derivation_path_chars(
                ScriptType::P2WSH,
                *network,
                account as nat,
            )
            &&& x.taproot_path@ == derivation_path_chars(
                ScriptType::P2TR,
                *network,
                account as nat,
            )
            &&& x.single_sig_xpub@ == single_sig_xpub@
            &&& x.multi_sig_xpub@ == multi_sig_xpub@
            &&& x.taproot_xpub@ == taproot_xpub@
            &&& x.mfp@ == upper_of(fp@)
        }),
{
    let fp = match fingerprint {
        Some(fp) => fp,
        None => {
            return Err(HwiError::Hwi(String::from_str("Device fingerpring is missing")));
        },
    };
    Ok(
        XpubData {
            single_sig_path: get_derivation_path(&ScriptType::P2WPKH, network, account),
            single_sig_xpub: String::from_str(single_sig_xpub),
            multi_sig_path: get_derivation_path(&ScriptType::P2WSH, network, account),
            multi_sig_xpub: String::from_str(multi_sig_xpub),
            taproot_path: get_derivation_path(&ScriptType::P2TR, network, account),
            taproot_xpub: String::from_str(taproot_xpub),
            mfp: crate::strconv::to_uppercase(fp.as_str()),
        },
    )
}

} // verus!

use keeper_channel::device::get_derivation_path;
use keeper_channel::device::get_xpubs;
use keeper_channel::device::ScriptType;
use keeper_channel::hwi::fingerprint_matches;
use keeper_channel::hwi::jade_network_compatible;
use keeper_channel::hwi::Architecture;
use keeper_channel::hwi::HWIBinaryExecutorImpl;
use keeper_channel::hwi::HWIClient;
use keeper_channel::hwi::HwiError;
use keeper_channel::hwi::Network;

#[test]
fn derivation_paths_follow_the_bip_scheme() {
    assert_eq!(
        get_derivation_path(&ScriptType::P2WPKH, &Network::Bitcoin, 0),
        "m/84'/0'/0'"
    );
    assert_eq!(
        get_derivation_path(&ScriptType::P2WSH, &Network::Bitcoin, 0),
        "m/48'/0'/0'/2'"
    );
    assert_eq!(
        get_derivation_path(&ScriptType::P2TR, &Network::Bitcoin, 0),
        "m/86'/0'/0'"
    );
}

#[test]
fn test_networks_use_coin_type_one() {
    assert_eq!(
        get_derivation_path(&ScriptType::P2WPKH, &Network::Testnet, 0),
        "m/84'/1'/0'"
    );
    assert_eq!(
        get_derivation_path(&ScriptType::P2WSH, &Network::Signet, 3),
        "m/48'/1'/3'/2'"
    );
    assert_eq!(
        get_derivation_path(&ScriptType::P2TR, &Network::Regtest, 1),
        "m/86'/1'/1'"
    );
}

#[test]
fn multi_digit_accounts_render_in_decimal() {
    assert_eq!(
        get_derivation_path(&ScriptType::P2WPKH, &Network::Bitcoin, 123),
        "m/84'/0'/123'"
    );
    assert_eq!(
        get_derivation_path(&ScriptType::P2TR, &Network::Bitcoin, 10),
        "m/86'/0'/10'"
    );
}

#[test]
fn xpub_response_carries_paths_keys_and_uppercased_fingerprint() {
    let r = get_xpubs(
        &Network::Bitcoin,
        0,
        "xpubSingle",
        "xpubMulti",
        "xpubTaproot",
        &Some("abcd1234".to_string()),
    )
    .unwrap();
    assert_eq!(r.single_sig_path, "m/84'/0'/0'");
    assert_eq!(r.multi_sig_path, "m/48'/0'/0'/2'");
    assert_eq!(r.taproot_path, "m/86'/0'/0'");
    assert_eq!(r.single_sig_xpub, "xpubSingle");
    assert_eq!(r.multi_sig_xpub, "xpubMulti");
    assert_eq!(r.taproot_xpub, "xpubTaproot");
    assert_eq!(r.mfp, "ABCD1234");
}

#[test]
fn xpub_response_requires_a_fingerprint() {
    let r = get_xpubs(&Network::Bitcoin, 0, "a", "b", "c", &None);
    match r {
        Err(HwiError::Hwi(m)) => assert_eq!(m, "Device fingerpring is missing"),
        Ok(_) => panic!("a missing fingerprint must be rejected"),
    }
}

#[test]
fn new_client_is_bound_to_mainnet_and_no_device() {
    let c = HWIClient::new("/opt/hwi".to_string(), false);
    assert_eq!(c.hwi_path, "/opt/hwi");
    assert!(!c.test_mode);
    assert!(c.device_fingerprint.is_none());
    assert!(c.device_type.is_none());
    assert_eq!(c.network, Network::Bitcoin);
}

#[test]
fn set_device_info_binds_the_device() {
    let mut c = HWIClient::new("/opt/hwi".to_string(), false);
    c.set_device_info("f00d".to_string(), "coldcard".to_string());
    assert_eq!(c.device_fingerprint.as_deref(), Some("f00d"));
    assert_eq!(c.device_type.as_deref(), Some("coldcard"));
}

#[test]
fn network_labels_parse_in_both_cases() {
    let mut c = HWIClient::new("/opt/hwi".to_string(), false);
    c.set_network("testnet");
    assert_eq!(c.network, Network::Testnet);
    c.set_network("BITCOIN");
    assert_eq!(c.network, Network::Bitcoin);
    c.set_network("TESTNET");
    assert_eq!(c.network, Network::Testnet);
    c.set_network("bitcoin");
    assert_eq!(c.network, Network::Bitcoin);
}

#[test]
fn unknown_network_label_leaves_the_network_unchanged() {
    let mut c = HWIClient::new("/opt/hwi".to_string(), false);
    c.set_network("testnet");
    c.set_network("signet");
    assert_eq!(c.network, Network::Testnet);
}

#[test]
fn enumerate_needs_no_fingerprint() {
    let c = HWIClient::new("/opt/hwi".to_string(), false);
    let args = c.build_hwi_args(&vec!["enumerate".to_string()]).unwrap();
    assert_eq!(args, vec!["enumerate".to_string()]);
}

#[test]
fn other_commands_require_a_fingerprint() {
    let c = HWIClient::new("/opt/hwi".to_string(), false);
    let r = c.build_hwi_args(&vec!["getxpub".to_string(), "m/84'/0'/0'".to_string()]);
    match r {
        Err(HwiError::Hwi(m)) => assert_eq!(m, "Device fingerprint not set"),
        Ok(_) => panic!("a command without a bound device must be rejected"),
    }
}

#[test]
fn fingerprint_and_emulator_flags_precede_the_command() {
    let mut c = HWIClient::new("/opt/hwi".to_string(), true);
    c.set_device_info("f00d".to_string(), "coldcard".to_string());
    let args = c
        .build_hwi_args(&vec!["getxpub".to_string(), "m/84'/0'/0'".to_string()])
        .unwrap();
    assert_eq!(
        args,
        vec![
            "--emulators".to_string(),
            "--fingerprint".to_string(),
            "f00d".to_string(),
            "getxpub".to_string(),
            "m/84'/0'/0'".to_string(),
        ]
    );
}

#[test]
fn xpub_args_prefix_the_path() {
    assert_eq!(
        HWIClient::xpub_args("84'/0'/0'", false),
        vec!["getxpub".to_string(), "m/84'/0'/0'".to_string()]
    );
    assert_eq!(
        HWIClient::xpub_args("84'/0'/0'", true),
        vec![
            "getxpub".to_string(),
            "m/84'/0'/0'".to_string(),
            "--expert".to_string(),
        ]
    );
}

#[test]
fn binary_names_cover_the_shipped_platforms() {
    assert_eq!(
        HWIClient::binary_name("windows", &Architecture::X86_64),
        Some("hwi-windows-x86_64.exe")
    );
    assert_eq!(
        HWIClient::binary_name("macos", &Architecture::X86_64),
        Some("hwi-mac-x86_64")
    );
    assert_eq!(
        HWIClient::binary_name("macos", &Architecture::ARM64),
        Some("hwi-mac-arm64")
    );
    assert_eq!(
        HWIClient::binary_name("macos", &Architecture::AARCH64),
        Some("hwi-mac-arm64")
    );
    assert_eq!(
        HWIClient::binary_name("linux", &Architecture::X86_64),
        Some("hwi-linux-x86_64")
    );
    assert_eq!(
        HWIClient::binary_name("linux", &Architecture::AARCH64),
        Some("hwi-linux-aarch64")
    );
}

#[test]
fn unsupported_platforms_get_no_binary() {
    assert_eq!(HWIClient::binary_name("windows", &Architecture::ARM64), None);
    assert_eq!(HWIClient::binary_name("linux", &Architecture::ARM64), None);
    assert_eq!(HWIClient::binary_name("freebsd", &Architecture::X86_64), None);
}

#[test]
fn architecture_labels_parse() {
    assert_eq!(HWIClient::parse_arch("x86_64"), Some(Architecture::X86_64));
    assert_eq!(HWIClient::parse_arch("aarch64"), Some(Architecture::AARCH64));
    assert_eq!(HWIClient::parse_arch("arm"), Some(Architecture::ARM64));
    assert_eq!(HWIClient::parse_arch("arm64"), Some(Architecture::ARM64));
    assert_eq!(HWIClient::parse_arch("mips"), None);
}

#[test]
fn executor_prepends_the_emulators_flag() {
    let args = HWIBinaryExecutorImpl::prepare_args(vec!["enumerate".to_string()]);
    assert_eq!(args, vec!["--emulators".to_string(), "enumerate".to_string()]);
}

#[test]
fn fingerprints_match_without_regard_to_case() {
    assert!(fingerprint_matches("abcd1234", "ABCD1234"));
    assert!(fingerprint_matches("ABCD1234", "abcd1234"));
    assert!(!fingerprint_matches("abcd1234", "abcd1235"));
}

#[test]
fn jade_compatibility_follows_the_session_network() {
    assert!(jade_network_compatible(&Network::Bitcoin, true, false));
    assert!(jade_network_compatible(&Network::Bitcoin, false, true));
    assert!(!jade_network_compatible(&Network::Bitcoin, false, false));
    assert!(jade_network_compatible(&Network::Testnet, false, false));
    assert!(jade_network_compatible(&Network::Testnet, false, true));
    assert!(!jade_network_compatible(&Network::Testnet, true, false));
}

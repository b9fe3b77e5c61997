//! The client of the hardware-wallet signing binary: its settings, the
//! command lines it runs, and the choice of binary per platform.
//!
//! Running the binary is the host's concern; what is verified here is
//! every decision around it — which arguments are assembled, which
//! binary name fits the platform, how the network label is parsed, and
//! how fingerprints are compared.

use vstd::prelude::*;

use crate::strconv::str_eq;
use crate::strconv::to_uppercase;
use crate::strconv::upper_of;

verus! {

/// A failure reported by the signing-binary client.
#[derive(Debug, Clone)]
pub enum HwiError {
    Hwi(String),
}

/// The bitcoin network a device session is bound to.
#[derive(Debug, Clone, Copy, PartialEq, Eq, Structural)]
pub enum Network {
    Bitcoin,
    Testnet,
    Signet,
    Regtest,
}

/// The processor architectures the signing binary ships for.
#[derive(Debug, Clone, Copy, PartialEq, Eq, Structural)]
pub enum Architecture {
    X86_64,
    ARM64,
    AARCH64,
}

/// The client of the signing binary: where it lives, whether emulators
/// are addressed, and which device and network it is bound to.
#[derive(Debug, Clone)]
pub struct HWIClient {
    pub hwi_path: String,
    pub test_mode: bool,
    pub device_fingerprint: Option<String>,
    pub device_type: Option<String>,
    pub network: Network,
}

impl HWIClient {
    /// A client for the binary at the given path, bound to no device and
    /// to mainnet.
    pub fn new(hwi_path: String, test_mode: bool) -> (c: Self)
        ensures
            c.hwi_path@ == hwi_path@,
            c.test_mode == test_mode,
            c.device_fingerprint is None,
            c.device_type is None,
            c.network == Network::Bitcoin,
    {
        HWIClient {
            hwi_path,
            test_mode,
            device_fingerprint: None,
            device_type: None,
            network: Network::Bitcoin,
        }
    }

    /// Binds the client to a device.
    pub fn set_device_info(&mut self, fingerprint: String, device_type: String)
        ensures
            final(self).device_fingerprint matches Some(fp) && fp@ == fingerprint@,
            final(self).device_type matches Some(dt) && dt@ == device_type@,
            final(self).hwi_path == old(self).hwi_path,
            final(self).test_mode == old(self).test_mode,
            final(self).network == old(self).network,
    {
        self.device_fingerprint = Some(fingerprint);
        self.device_type = Some(device_type);
    }

    /// Parses a network label: `bitcoin`/`BITCOIN` and
    /// `testnet`/`TESTNET` switch the network; any other label leaves it
    /// unchanged.
    pub fn set_network(&mut self, network: &str)
        ensures
            (network@ == "bitcoin"@ || network@ == "BITCOIN"@) ==> final(self).network
                == Network::Bitcoin,
            (network@ == "testnet"@ || network@ == "TESTNET"@) ==> final(self).network
                == Network::Testnet,
            !(network@ == "bitcoin"@ || network@ == "BITCOIN"@ || network@ == "testnet"@
                || network@ == "TESTNET"@) ==> final(self).network == old(self).network,
            final(self).hwi_path == old(self).hwi_path,
            final(self).test_mode == old(self).test_mode,
            final(self).device_fingerprint == old(self).device_fingerprint,
            final(self).device_type == old(self).device_type,
    {
        proof {
            reveal_strlit("bitcoin");
            reveal_strlit("BITCOIN");
            reveal_strlit("testnet");
            reveal_strlit("TESTNET");
            assert("bitcoin"@[0] != "testnet"@[0]);
            assert("bitcoin"@[0] != "TESTNET"@[0]);
            assert("BITCOIN"@[0] != "testnet"@[0]);
            assert("BITCOIN"@[0] != "TESTNET"@[0]);
        }
        if str_eq(network, "bitcoin") || str_eq(network, "BITCOIN") {
            self.network = Network::Bitcoin;
        } else if str_eq(network, "testnet") || str_eq(network, "TESTNET") {
            self.network = Network::Testnet;
        }
    }

    /// Assembles the command line for the signing binary: a fingerprint
    /// flag for every command but `enumerate` (failing when no
    /// fingerprint is bound), an `--emulators` flag in test mode, then
    /// the command's own arguments. Running the result is the host's
    /// concern.
    pub fn build_hwi_args(&self, args: &Vec<String>) -> (r: Result<Vec<String>, HwiError>)
        requires
            args@.len() > 0,
        ensures
            (args@[0]@ != "enumerate"@ && self.device_fingerprint is None) ==> (r matches Err(e)
                && e matches HwiError::Hwi(m) && m@ == "Device fingerprint not set"@),
            (args@[0]@ == "enumerate"@ || self.device_fingerprint is Some) ==> (r matches Ok(v)
                && v.deep_view() == self.args_prefix(args@[0]@) + args.deep_view()),
    {
        let mut command_args: Vec<String> = Vec::new();
        if !str_eq(args[0].as_str(), "enumerate") {
            let fingerprint = match &self.device_fingerprint {
                Some(fp) => fp.clone(),
                None => {
                    return Err(HwiError::Hwi(String::from_str("Device fingerprint not set")));
                },
            };
            command_args.push(String::from_str("--fingerprint"));
            command_args.push(fingerprint);
        }
        if self.test_mode {
            command_args.insert(0, String::from_str("--emulators"));
        }
        let ghost prefix = command_args.deep_view();
        let mut i: usize = 0;
        while i < args.len()
            invariant
                i <= args@.len(),
                command_args.deep_view() == prefix + args.deep_view().take(i as int),
            decreases args@.len() - i,
        {
            let ghost before = command_args.deep_view();
            command_args.push(args[i].clone());
            proof {
                assert(command_args.deep_view() =~= before.push(args.deep_view()[i as int]));
                assert(command_args.deep_view() =~= prefix + args.deep_view().take(i as int + 1));
            }
            i = i + 1;
        }
        proof {
            assert(args.deep_view().take(args@.len() as int) =~= args.deep_view());
            assert(prefix =~= self.args_prefix(args@[0]@));
        }
        Ok(command_args)
    }

    /// The flags that precede the command: `--emulators` in test mode,
    /// and `--fingerprint <fp>` for every command but `enumerate`.
    pub open spec fn args_prefix(&self, command: Seq<char>) -> Seq<Seq<char>> {
        let emulators: Seq<Seq<char>> = if self.test_mode {
            seq!["--emulators"@]
        } else {
            Seq::empty()
        };
        let fingerprint: Seq<Seq<char>> = if command != "enumerate"@ {
            seq!["--fingerprint"@, self.device_fingerprint.unwrap()@]
        } else {
            Seq::empty()
        };
        emulators + fingerprint
    }

    /// The arguments of a `getxpub` command: the path prefixed with `m/`,
    /// and `--expert` when asked for.
    pub fn xpub_args(path: &str, expert: bool) -> (r: Vec<String>)
        ensures
            r.deep_view() == Self::xpub_args_spec(path@, expert),
    {
        let prefixed = String::from_str("m/").concat(path);
        let mut args: Vec<String> = Vec::new();
        args.push(String::from_str("getxpub"));
        args.push(prefixed);
        if expert {
            args.push(String::from_str("--expert"));
        }
        proof {
            assert(args.deep_view() =~= Self::xpub_args_spec(path@, expert));
        }
        args
    }

    /// What `xpub_args` yields.
    pub open spec fn xpub_args_spec(path: Seq<char>, expert: bool) -> Seq<Seq<char>> {
        let base = seq!["getxpub"@, "m/"@ + path];
        if expert {
            base + seq!["--expert"@]
        } else {
            base
        }
    }

    /// The binary name for a platform, or nothing when the platform is
    /// unsupported.
    pub fn binary_name(os: &str, arch: &Architecture) -> (r: Option<&'static str>)
        ensures
            match Self::binary_name_spec(os@, *arch) {
                Some(name) => r matches Some(s) && s@ == name,
                None => r is None,
            },
    {
        proof {
            reveal_strlit("windows");
            reveal_strlit("macos");
            reveal_strlit("linux");
            assert("windows"@[0] != "macos"@[0]);
            assert("windows"@[0] != "linux"@[0]);
            assert("macos"@[0] != "linux"@[0]);
        }
        if str_eq(os, "windows") {
            match arch {
                Architecture::X86_64 => Some("hwi-windows-x86_64.exe"),
                _ => None,
            }
        } else if str_eq(os, "macos") {
            match arch {
                Architecture::X86_64 => Some("hwi-mac-x86_64"),
                Architecture::ARM64 => Some("hwi-mac-arm64"),
                Architecture::AARCH64 => Some("hwi-mac-arm64"),
            }
        } else if str_eq(os, "linux") {
            match arch {
                Architecture::X86_64 => Some("hwi-linux-x86_64"),
                Architecture::AARCH64 => Some("hwi-linux-aarch64"),
                _ => None,
            }
        } else {
            None
        }
    }

    /// The binary shipped for each supported platform.
    pub open spec fn binary_name_spec(os: Seq<char>, arch: Architecture) -> Option<Seq<char>> {
        if os == "windows"@ && arch == Architecture::X86_64 {
            Some("hwi-windows-x86_64.exe"@)
        } else if os == "macos"@ && arch == Architecture::X86_64 {
            Some("hwi-mac-x86_64"@)
        } else if os == "macos"@ && (arch == Architecture::ARM64 || arch == Architecture::AARCH64) {
            Some("hwi-mac-arm64"@)
        } else if os == "linux"@ && arch == Architecture::X86_64 {
            Some("hwi-linux-x86_64"@)
        } else if os == "linux"@ && arch == Architecture::AARCH64 {
            Some("hwi-linux-aarch64"@)
        } else {
            None
        }
    }

    /// Parses the architecture label the build environment reports.
    pub fn parse_arch(arch: &str) -> (r: Option<Architecture>)
        ensures
            arch@ == "x86_64"@ ==> r == Some(Architecture::X86_64),
            arch@ == "aarch64"@ ==> r == Some(Architecture::AARCH64),
            (arch@ == "arm"@ || arch@ == "arm64"@) ==> r == Some(Architecture::ARM64),
            !(arch@ == "x86_64"@ || arch@ == "aarch64"@ || arch@ == "arm"@ || arch@ == "arm64"@)
                ==> r is None,
    {
        proof {
            reveal_strlit("x86_64");
            reveal_strlit("aarch64");
            reveal_strlit("arm");
            reveal_strlit("arm64");
            assert("x86_64"@[0] != "aarch64"@[0]);
            assert("x86_64"@[0] != "arm"@[0]);
            assert("x86_64"@[0] != "arm64"@[0]);
            assert("aarch64"@[1] != "arm"@[1]);
            assert("aarch64"@[1] != "arm64"@[1]);
            assert("arm"@.len() != "arm64"@.len());
        }
        if str_eq(arch, "x86_64") {
            Some(Architecture::X86_64)
        } else if str_eq(arch, "aarch64") {
            Some(Architecture::AARCH64)
        } else if str_eq(arch, "arm") || str_eq(arch, "arm64") {
            Some(Architecture::ARM64)
        } else {
            None
        }
    }
}

/// The executor that runs the signing binary for the application shell;
/// it always addresses emulators.
pub struct HWIBinaryExecutorImpl;

impl HWIBinaryExecutorImpl {
    /// Prepends the `--emulators` flag to a command line.
    pub fn prepare_args(args: Vec<String>) -> (r: Vec<String>)
        ensures
            r.deep_view() == seq!["--emulators"@] + args.deep_view(),
    {
        let ghost given = args.deep_view();
        let mut args = args;
        args.insert(0, String::from_str("--emulators"));
        proof {
            assert(args.deep_view() =~= seq!["--emulators"@] + given);
        }
        args
    }
}

/// Whether a device's master fingerprint matches the one looked for,
/// compared without regard to letter case.
pub fn fingerprint_matches(expected: &str, actual: &str) -> (r: bool)
    ensures
        r == (upper_of(expected@) == upper_of(actual@)),
{
    let e = to_uppercase(expected);
    let a = to_uppercase(actual);
    str_eq(e.as_str(), a.as_str())
}

/// Whether a locked-network device fits the session's network: a mainnet
/// session needs a device on mainnet or on all networks, and a
/// test-network session refuses a mainnet-only device.
pub fn jade_network_compatible(network: &Network, device_main_only: bool, device_all: bool) -> (r:
    bool)
    ensures
        r == !((*network == Network::Bitcoin && !device_main_only && !device_all) || (*network
            != Network::Bitcoin && device_main_only)),
{
    let is_main = matches!(network, Network::Bitcoin);
    !((is_main && !device_main_only && !device_all) || (!is_main && device_main_only))
}

} // verus!

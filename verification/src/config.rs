//! Platform descriptor and per-invocation manager configuration.
//!
//! Raw operating-system and architecture strings are normalized into closed
//! enumerations at this single boundary; every later comparison in the engine
//! is an exhaustive match over these tags, never a string comparison. An
//! unrecognized operating system falls back to Linux and an unrecognized
//! architecture to x86-64, the engine's default arms.

use vstd::prelude::*;

use crate::strutil::{eq_ignore_case, str_eq_ignore_ascii_case};
use crate::version::Channel;

verus! {

/// The operating systems the engine distinguishes.
#[derive(Clone, Copy, PartialEq, Eq, Structural, Debug)]
pub enum Os {
    Windows,
    Macos,
    Linux,
}

/// The processor architectures the engine distinguishes.
#[derive(Clone, Copy, PartialEq, Eq, Structural, Debug)]
pub enum Arch {
    X32,
    X64,
    Arm64,
}

/// One cell of a per-vendor local-install-path table: an operating system
/// together with a release channel.
#[derive(Clone, Copy, PartialEq, Eq, Structural, Debug)]
pub struct PlatformKey {
    pub os: Os,
    pub channel: Channel,
}

impl Os {
    /// The lower-case name used in version feeds and cache paths.
    pub fn name(self) -> (r: &'static str)
        ensures
            r@ == os_name(self),
    {
        match self {
            Os::Windows => "windows",
            Os::Macos => "macos",
            Os::Linux => "linux",
        }
    }

    /// The upper-case name used by vendors whose feeds key on it.
    pub fn upper_name(self) -> (r: &'static str)
        ensures
            r@ == os_upper_name(self),
    {
        match self {
            Os::Windows => "WINDOWS",
            Os::Macos => "MACOS",
            Os::Linux => "LINUX",
        }
    }
}

/// The lower-case name of an operating system.
pub open spec fn os_name(os: Os) -> Seq<char> {
    match os {
        Os::Windows => "windows"@,
        Os::Macos => "macos"@,
        Os::Linux => "linux"@,
    }
}

/// The upper-case name of an operating system.
pub open spec fn os_upper_name(os: Os) -> Seq<char> {
    match os {
        Os::Windows => "WINDOWS"@,
        Os::Macos => "MACOS"@,
        Os::Linux => "LINUX"@,
    }
}

/// The operating system a raw name denotes, compared without regard to
/// ASCII case; anything unrecognized falls back to Linux.
pub open spec fn os_of(s: Seq<char>) -> Os {
    if eq_ignore_case(s, "windows"@) || eq_ignore_case(s, "win"@) {
        Os::Windows
    } else if eq_ignore_case(s, "macos"@) || eq_ignore_case(s, "mac"@) || eq_ignore_case(
        s,
        "darwin"@,
    ) {
        Os::Macos
    } else {
        Os::Linux
    }
}

/// The architecture a raw name denotes, compared without regard to ASCII
/// case; anything unrecognized falls back to x86-64.
pub open spec fn arch_of(s: Seq<char>) -> Arch {
    if eq_ignore_case(s, "x86"@) || eq_ignore_case(s, "i386"@) || eq_ignore_case(
        s,
        "i586"@,
    ) || eq_ignore_case(s, "i686"@) || eq_ignore_case(s, "x32"@) {
        Arch::X32
    } else if eq_ignore_case(s, "aarch64"@) || eq_ignore_case(s, "arm64"@) {
        Arch::Arm64
    } else {
        Arch::X64
    }
}

/// Normalizes a raw operating-system name.
pub fn parse_os(s: &str) -> (r: Os)
    ensures
        r == os_of(s@),
{
    if str_eq_ignore_ascii_case(s, "windows") || str_eq_ignore_ascii_case(s, "win") {
        Os::Windows
    } else if str_eq_ignore_ascii_case(s, "macos") || str_eq_ignore_ascii_case(s, "mac")
        || str_eq_ignore_ascii_case(s, "darwin") {
        Os::Macos
    } else {
        Os::Linux
    }
}

/// Normalizes a raw architecture name.
pub fn parse_arch(s: &str) -> (r: Arch)
    ensures
        r == arch_of(s@),
{
    if str_eq_ignore_ascii_case(s, "x86") || str_eq_ignore_ascii_case(s, "i386")
        || str_eq_ignore_ascii_case(s, "i586") || str_eq_ignore_ascii_case(s, "i686")
        || str_eq_ignore_ascii_case(s, "x32") {
        Arch::X32
    } else if str_eq_ignore_ascii_case(s, "aarch64") || str_eq_ignore_ascii_case(s, "arm64") {
        Arch::Arm64
    } else {
        Arch::X64
    }
}

/// The recipe for best-effort local discovery of an installed browser's
/// version: a registry key and value name for Windows, and the flag the
/// browser binary prints its version for elsewhere. The engine supplies the
/// recipe; the application executes it and may hand the resulting raw
/// version string back through a setter. Detection failure is never an
/// error, only an unconstrained version.
pub struct DiscoveryCommand {
    pub registry_key: &'static str,
    pub registry_value: &'static str,
    pub version_flag: &'static str,
}

/// Per-invocation configuration of one manager: the requested browser and
/// driver versions, the platform, transport parameters handed through to the
/// application, the cache TTL in seconds, the offline flag, explicit install
/// paths, and the cache root under which metadata and artifacts live.
pub struct ManagerConfig {
    pub browser_name: String,
    pub driver_name: String,
    pub browser_version: String,
    pub driver_version: String,
    pub os: Os,
    pub arch: Arch,
    pub proxy: String,
    pub timeout: u64,
    pub ttl: u64,
    pub offline: bool,
    pub browser_path: String,
    pub driver_path: String,
    pub cache_path: String,
}

/// The default TTL of a cache entry, in seconds.
pub const DEFAULT_TTL_SEC: u64 = 3600;

/// The default network timeout handed to the transport, in seconds.
pub const DEFAULT_TIMEOUT_SEC: u64 = 300;

/// Whether `c` is the fresh configuration for the named browser and driver:
/// empty requested versions, default TTL and timeout, online, and the Linux
/// x86-64 platform until the caller supplies the detected one.
pub open spec fn is_default_config(c: ManagerConfig, browser_name: Seq<char>, driver_name: Seq<char>) -> bool {
    &&& c.browser_name@ == browser_name
    &&& c.driver_name@ == driver_name
    &&& c.browser_version@.len() == 0
    &&& c.driver_version@.len() == 0
    &&& c.os == Os::Linux
    &&& c.arch == Arch::X64
    &&& c.proxy@.len() == 0
    &&& c.timeout == DEFAULT_TIMEOUT_SEC
    &&& c.ttl == DEFAULT_TTL_SEC
    &&& !c.offline
    &&& c.browser_path@.len() == 0
    &&& c.driver_path@.len() == 0
    &&& c.cache_path@.len() == 0
}

impl ManagerConfig {
    /// A fresh configuration for the named browser and driver.
    pub fn new(browser_name: &str, driver_name: &str) -> (c: ManagerConfig)
        ensures
            is_default_config(c, browser_name@, driver_name@),
    {
        ManagerConfig {
            browser_name: browser_name.to_owned(),
            driver_name: driver_name.to_owned(),
            browser_version: String::new(),
            driver_version: String::new(),
            os: Os::Linux,
            arch: Arch::X64,
            proxy: String::new(),
            timeout: DEFAULT_TIMEOUT_SEC,
            ttl: DEFAULT_TTL_SEC,
            offline: false,
            browser_path: String::new(),
            driver_path: String::new(),
            cache_path: String::new(),
        }
    }
}

} // verus!

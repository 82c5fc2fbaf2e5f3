//! The Edge family manager: the Microsoft Edge browser and its msedgedriver
//! driver.
//!
//! Driver versions are resolved from the vendor's per-major release feed;
//! stable, unconstrained and unstable requests first consult the generic
//! latest-stable endpoint to learn the subject major version. Browser
//! artifacts are chosen from the vendor's product feed by filtering on
//! channel, platform, architecture and package type, first match winning at
//! every stage.

use vstd::prelude::*;
use vstd::string::StringExecFns;

use crate::config::{
    arch_of, is_default_config, os_name, os_of, os_upper_name, Arch, DiscoveryCommand,
    ManagerConfig, Os, PlatformKey,
};
use crate::files::{
    binary_file_name, browser_path_in_cache, compose_binary_file_name,
    compose_browser_path_in_cache, compose_driver_path_in_cache, driver_path_in_cache,
};
use crate::metadata::{
    found_browser_version, found_driver_version, get_browser_version_from_metadata,
    get_driver_version_from_metadata, record_browser_resolution, record_driver_resolution,
    Metadata,
};
use crate::strutil::{eq_ignore_case, str_eq_ignore_ascii_case};
use crate::version::{classified, classify, is_unstable, major_of, major_version, Channel};
use crate::{Error, VersionRequest};

verus! {

/// A manager instance for the Edge family: stable identifiers used as cache
/// keys, the per-invocation configuration, and the browser download URL
/// learned from the product feed during the current run.
pub struct EdgeManager {
    pub browser_name: &'static str,
    pub driver_name: &'static str,
    pub config: ManagerConfig,
    pub browser_url: Option<String>,
}

/// One channel of the vendor's product feed.
#[derive(Debug)]
pub struct EdgeProduct {
    pub product: String,
    pub releases: Vec<Release>,
}

/// One release of a product: a browser build for one platform and
/// architecture, with its downloadable artifacts.
#[derive(Debug)]
pub struct Release {
    pub release_id: u32,
    pub platform: String,
    pub architecture: String,
    pub cves: Vec<String>,
    pub product_version: String,
    pub artifacts: Vec<Artifact>,
    pub published_time: String,
    pub expected_expiry_date: String,
}

/// One downloadable artifact of a release.
#[derive(Debug)]
pub struct Artifact {
    pub artifact_name: String,
    pub location: String,
    pub hash: String,
    pub hash_algorithm: String,
    pub size_in_bytes: u32,
}

/// The browser names a caller may select the Edge family by.
pub fn edge_names() -> (r: Vec<&'static str>)
    ensures
        r@.len() == 3,
        r@[0]@ == "edge"@,
        r@[1]@ == "msedge"@,
        r@[2]@ == "microsoftedge"@,
{
    let mut names: Vec<&'static str> = Vec::new();
    names.push("edge");
    names.push("msedge");
    names.push("microsoftedge");
    names
}

/// The archive label of an msedgedriver asset for a platform.
pub open spec fn edge_driver_label(os: Os, arch: Arch) -> Seq<char> {
    match os {
        Os::Windows => if arch is Arm64 {
            "arm64"@
        } else if arch is X32 {
            "win32"@
        } else {
            "win64"@
        },
        Os::Macos => if arch is Arm64 {
            "mac64_m1"@
        } else {
            "mac64"@
        },
        Os::Linux => "linux64"@,
    }
}

/// The msedgedriver download URL for a driver version and platform.
pub open spec fn edge_driver_url(version: Seq<char>, os: Os, arch: Arch) -> Seq<char> {
    "https://msedgedriver.azureedge.net/"@ + version + "/edgedriver_"@ + edge_driver_label(os, arch)
        + ".zip"@
}

/// The platform label used in msedgedriver cache sub-paths.
pub open spec fn edge_platform_label(os: Os, arch: Arch) -> Seq<char> {
    match os {
        Os::Windows => if arch is Arm64 {
            "win-arm64"@
        } else if arch is X32 {
            "win32"@
        } else {
            "win64"@
        },
        Os::Macos => if arch is Arm64 {
            "mac-arm64"@
        } else {
            "mac64"@
        },
        Os::Linux => "linux64"@,
    }
}

/// The vendor's per-major driver version feed URL.
pub open spec fn edge_driver_version_feed(major: Seq<char>, os: Os) -> Seq<char> {
    "https://msedgedriver.azureedge.net/"@ + "LATEST_RELEASE_"@ + major + "_"@ + os_upper_name(os)
}

/// The product feed URL a browser request is answered from: the plain feed
/// for unconstrained or unstable requests, the enterprise view otherwise.
pub open spec fn edge_browser_feed_url(browser_version: Seq<char>) -> Seq<char> {
    if browser_version.len() == 0 || is_unstable(classified(browser_version)) {
        "https://edgeupdates.microsoft.com/api/products"@
    } else {
        "https://edgeupdates.microsoft.com/api/products"@ + "?view=enterprise"@
    }
}

/// The product name a channel carries in the vendor's feed.
pub open spec fn edge_channel_label(c: Channel) -> Seq<char> {
    match c {
        Channel::Beta => "Beta"@,
        Channel::Dev => "Dev"@,
        Channel::Nightly => "Canary"@,
        _ => "Stable"@,
    }
}

/// The architecture name a release carries in the vendor's feed.
pub open spec fn edge_arch_label(os: Os, arch: Arch) -> Seq<char> {
    match os {
        Os::Windows => if arch is Arm64 {
            "arm64"@
        } else if arch is X32 {
            "x86"@
        } else {
            "x64"@
        },
        Os::Macos => "universal"@,
        Os::Linux => "x64"@,
    }
}

/// The package type the engine provisions on an operating system.
pub open spec fn edge_package_label(os: Os) -> Seq<char> {
    match os {
        Os::Windows => "msi"@,
        Os::Macos => "pkg"@,
        Os::Linux => "deb"@,
    }
}

/// The macOS application-bundle binary of the browser, per channel.
pub open spec fn edge_macos_app_name(c: Channel) -> Seq<char> {
    match c {
        Channel::Beta => "Microsoft Edge Beta.app/Contents/MacOS/Microsoft Edge Beta"@,
        Channel::Dev => "Microsoft Edge Dev.app/Contents/MacOS/Microsoft Edge Dev"@,
        Channel::Nightly => "Microsoft Edge Canary.app/Contents/MacOS/Microsoft Edge Canary"@,
        _ => "Microsoft Edge.app/Contents/MacOS/Microsoft Edge"@,
    }
}

/// Whether a product belongs to the channel named `label`.
pub open spec fn product_matches(p: EdgeProduct, label: Seq<char>) -> bool {
    eq_ignore_case(p.product@, label)
}

/// The first product of the channel named `label`.
pub open spec fn first_product(ps: Seq<EdgeProduct>, label: Seq<char>) -> Option<EdgeProduct>
    decreases ps.len(),
{
    if ps.len() == 0 {
        None
    } else if product_matches(ps[0], label) {
        Some(ps[0])
    } else {
        first_product(ps.skip(1), label)
    }
}

/// Whether a release is built for the named platform and architecture.
pub open spec fn release_matches(r: Release, os_label: Seq<char>, arch_label: Seq<char>) -> bool {
    eq_ignore_case(r.platform@, os_label) && eq_ignore_case(r.architecture@, arch_label)
}

/// The first release for the named platform and architecture.
pub open spec fn first_release(
    rs: Seq<Release>,
    os_label: Seq<char>,
    arch_label: Seq<char>,
) -> Option<Release>
    decreases rs.len(),
{
    if rs.len() == 0 {
        None
    } else if release_matches(rs[0], os_label, arch_label) {
        Some(rs[0])
    } else {
        first_release(rs.skip(1), os_label, arch_label)
    }
}

/// Whether an artifact is of the named package type.
pub open spec fn artifact_matches(a: Artifact, package: Seq<char>) -> bool {
    eq_ignore_case(a.artifact_name@, package)
}

/// The first artifact of the named package type.
pub open spec fn first_artifact(arts: Seq<Artifact>, package: Seq<char>) -> Option<Artifact>
    decreases arts.len(),
{
    if arts.len() == 0 {
        None
    } else if artifact_matches(arts[0], package) {
        Some(arts[0])
    } else {
        first_artifact(arts.skip(1), package)
    }
}

/// What the product feed yields for a channel, platform and architecture:
/// the product version and artifact location of the first matching artifact
/// of the first matching release of the first matching product, or `None`
/// when any filter leaves nothing.
pub open spec fn edge_selection(
    ps: Seq<EdgeProduct>,
    channel: Channel,
    os: Os,
    arch: Arch,
) -> Option<(Seq<char>, Seq<char>)> {
    match first_product(ps, edge_channel_label(channel)) {
        None => None,
        Some(p) => match first_release(p.releases@, os_name(os), edge_arch_label(os, arch)) {
            None => None,
            Some(rel) => match first_artifact(rel.artifacts@, edge_package_label(os)) {
                None => None,
                Some(a) => Some((rel.product_version@, a.location@)),
            },
        },
    }
}

/// The browser version and download URL selected from the product feed.
#[derive(Debug)]
pub struct EdgeSelection {
    pub version: String,
    pub url: String,
}

/// The first-product search yields the entry at `i` when `i` is the first
/// match.
pub proof fn lemma_first_product_at(ps: Seq<EdgeProduct>, label: Seq<char>, i: int)
    requires
        0 <= i < ps.len(),
        product_matches(ps[i], label),
        forall|j: int| 0 <= j < i ==> !product_matches(ps[j], label),
    ensures
        first_product(ps, label) == Some(ps[i]),
    decreases i,
{
    if i > 0 {
        assert(ps.skip(1)[i - 1] == ps[i]);
        assert forall|j: int| 0 <= j < i - 1 implies !product_matches(
            #[trigger] ps.skip(1)[j],
            label,
        ) by {
            assert(ps.skip(1)[j] == ps[j + 1]);
        }
        lemma_first_product_at(ps.skip(1), label, i - 1);
    }
}

/// The first-product search misses exactly when no product matches.
pub proof fn lemma_first_product_none(ps: Seq<EdgeProduct>, label: Seq<char>)
    ensures
        first_product(ps, label) is None <==> (forall|j: int|
            0 <= j < ps.len() ==> !product_matches(ps[j], label)),
    decreases ps.len(),
{
    if ps.len() > 0 {
        lemma_first_product_none(ps.skip(1), label);
        if first_product(ps, label) is None {
            assert forall|j: int| 0 <= j < ps.len() implies !product_matches(
                #[trigger] ps[j],
                label,
            ) by {
                if j > 0 {
                    assert(ps.skip(1)[j - 1] == ps[j]);
                }
            }
        } else {
            if !product_matches(ps[0], label) {
                let k = choose|k: int|
                    0 <= k < ps.skip(1).len() && product_matches(ps.skip(1)[k], label);
                assert(ps.skip(1)[k] == ps[k + 1]);
            }
        }
    }
}

/// The first-release search yields the entry at `i` when `i` is the first
/// match.
pub proof fn lemma_first_release_at(
    rs: Seq<Release>,
    os_label: Seq<char>,
    arch_label: Seq<char>,
    i: int,
)
    requires
        0 <= i < rs.len(),
        release_matches(rs[i], os_label, arch_label),
        forall|j: int| 0 <= j < i ==> !release_matches(rs[j], os_label, arch_label),
    ensures
        first_release(rs, os_label, arch_label) == Some(rs[i]),
    decreases i,
{
    if i > 0 {
        assert(rs.skip(1)[i - 1] == rs[i]);
        assert forall|j: int| 0 <= j < i - 1 implies !release_matches(
            #[trigger] rs.skip(1)[j],
            os_label,
            arch_label,
        ) by {
            assert(rs.skip(1)[j] == rs[j + 1]);
        }
        lemma_first_release_at(rs.skip(1), os_label, arch_label, i - 1);
    }
}

/// The first-release search misses exactly when no release matches.
pub proof fn lemma_first_release_none(rs: Seq<Release>, os_label: Seq<char>, arch_label: Seq<char>)
    ensures
        first_release(rs, os_label, arch_label) is None <==> (forall|j: int|
            0 <= j < rs.len() ==> !release_matches(rs[j], os_label, arch_label)),
    decreases rs.len(),
{
    if rs.len() > 0 {
        lemma_first_release_none(rs.skip(1), os_label, arch_label);
        if first_release(rs, os_label, arch_label) is None {
            assert forall|j: int| 0 <= j < rs.len() implies !release_matches(
                #[trigger] rs[j],
                os_label,
                arch_label,
            ) by {
                if j > 0 {
                    assert(rs.skip(1)[j - 1] == rs[j]);
                }
            }
        } else {
            if !release_matches(rs[0], os_label, arch_label) {
                let k = choose|k: int|
                    0 <= k < rs.skip(1).len() && release_matches(
                        rs.skip(1)[k],
                        os_label,
                        arch_label,
                    );
                assert(rs.skip(1)[k] == rs[k + 1]);
            }
        }
    }
}

/// The first-artifact search yields the entry at `i` when `i` is the first
/// match.
pub proof fn lemma_first_artifact_at(arts: Seq<Artifact>, package: Seq<char>, i: int)
    requires
        0 <= i < arts.len(),
        artifact_matches(arts[i], package),
        forall|j: int| 0 <= j < i ==> !artifact_matches(arts[j], package),
    ensures
        first_artifact(arts, package) == Some(arts[i]),
    decreases i,
{
    if i > 0 {
        assert(arts.skip(1)[i - 1] == arts[i]);
        assert forall|j: int| 0 <= j < i - 1 implies !artifact_matches(
            #[trigger] arts.skip(1)[j],
            package,
        ) by {
            assert(arts.skip(1)[j] == arts[j + 1]);
        }
        lemma_first_artifact_at(arts.skip(1), package, i - 1);
    }
}

/// The first-artifact search misses exactly when no artifact matches.
pub proof fn lemma_first_artifact_none(arts: Seq<Artifact>, package: Seq<char>)
    ensures
        first_artifact(arts, package) is None <==> (forall|j: int|
            0 <= j < arts.len() ==> !artifact_matches(arts[j], package)),
    decreases arts.len(),
{
    if arts.len() > 0 {
        lemma_first_artifact_none(arts.skip(1), package);
        if first_artifact(arts, package) is None {
            assert forall|j: int| 0 <= j < arts.len() implies !artifact_matches(
                #[trigger] arts[j],
                package,
            ) by {
                if j > 0 {
                    assert(arts.skip(1)[j - 1] == arts[j]);
                }
            }
        } else {
            if !artifact_matches(arts[0], package) {
                let k = choose|k: int|
                    0 <= k < arts.skip(1).len() && artifact_matches(arts.skip(1)[k], package);
                assert(arts.skip(1)[k] == arts[k + 1]);
            }
        }
    }
}

impl EdgeManager {
    /// The resolved version of the first valid driver cache entry for this
    /// manager's driver and the subject major version of the requested
    /// browser version.
    pub open spec fn cached_driver(&self, metadata: Metadata, now: u64) -> Option<Seq<char>> {
        found_driver_version(
            metadata.drivers@,
            self.driver_name@,
            major_of(self.config.browser_version@),
            now,
        )
    }

    /// The resolved version of the first valid browser cache entry for this
    /// manager's browser and the requested subject major version.
    pub open spec fn cached_browser(&self, metadata: Metadata, now: u64) -> Option<Seq<char>> {
        found_browser_version(
            metadata.browsers@,
            self.browser_name@,
            major_of(self.config.browser_version@),
            now,
        )
    }

    /// Whether the requested browser version must first be pinned through
    /// the vendor's generic latest-stable endpoint: stable, unstable and
    /// unconstrained requests cannot address the per-major feed directly.
    pub open spec fn needs_latest_first(&self) -> bool {
        classified(self.config.browser_version@) is Stable || is_unstable(
            classified(self.config.browser_version@),
        ) || major_of(self.config.browser_version@).len() == 0
    }

    /// A fresh Edge manager with the default configuration.
    pub fn new() -> (r: Result<Box<EdgeManager>, Error>)
        ensures
            r matches Ok(m) && m.browser_name@ == "edge"@ && m.driver_name@ == "msedgedriver"@
                && is_default_config(m.config, "edge"@, "msedgedriver"@) && m.browser_url is None,
    {
        let browser_name = "edge";
        let driver_name = "msedgedriver";
        let config = ManagerConfig::new(browser_name, driver_name);
        Ok(Box::new(EdgeManager { browser_name, driver_name, config, browser_url: None }))
    }

    /// The stable browser identifier used as a cache key.
    pub fn get_browser_name(&self) -> (r: &str)
        ensures
            r@ == self.browser_name@,
    {
        self.browser_name
    }

    /// The stable driver identifier used as a cache key.
    pub fn get_driver_name(&self) -> (r: &str)
        ensures
            r@ == self.driver_name@,
    {
        self.driver_name
    }

    /// The manager's configuration.
    pub fn get_config(&self) -> (r: &ManagerConfig)
        ensures
            r == self.config,
    {
        &self.config
    }

    /// A mutable borrow of the manager's configuration.
    pub fn get_config_mut(&mut self) -> (r: &mut ManagerConfig)
        ensures
            *r == old(self).config,
            *final(self) == (EdgeManager { config: *final(r), ..*old(self) }),
    {
        &mut self.config
    }

    /// Replaces the manager's configuration.
    pub fn set_config(&mut self, config: ManagerConfig)
        ensures
            *final(self) == (EdgeManager { config, ..*old(self) }),
    {
        self.config = config;
    }

    /// Sets the requested browser version.
    pub fn set_browser_version(&mut self, browser_version: String)
        ensures
            *final(self) == (EdgeManager {
                config: (ManagerConfig { browser_version, ..old(self).config }),
                ..*old(self)
            }),
    {
        self.config.browser_version = browser_version;
    }

    /// Sets the resolved driver version.
    pub fn set_driver_version(&mut self, driver_version: String)
        ensures
            *final(self) == (EdgeManager {
                config: (ManagerConfig { driver_version, ..old(self).config }),
                ..*old(self)
            }),
    {
        self.config.driver_version = driver_version;
    }

    /// Normalizes and sets the operating system.
    pub fn set_os(&mut self, os: String)
        ensures
            *final(self) == (EdgeManager {
                config: (ManagerConfig { os: os_of(os@), ..old(self).config }),
                ..*old(self)
            }),
    {
        self.config.os = crate::config::parse_os(os.as_str());
    }

    /// Normalizes and sets the architecture.
    pub fn set_arch(&mut self, arch: String)
        ensures
            *final(self) == (EdgeManager {
                config: (ManagerConfig { arch: arch_of(arch@), ..old(self).config }),
                ..*old(self)
            }),
    {
        self.config.arch = crate::config::parse_arch(arch.as_str());
    }

    /// Sets the cache TTL in seconds; zero disables caching.
    pub fn set_ttl(&mut self, ttl: u64)
        ensures
            *final(self) == (EdgeManager {
                config: (ManagerConfig { ttl, ..old(self).config }),
                ..*old(self)
            }),
    {
        self.config.ttl = ttl;
    }

    /// Sets the offline flag.
    pub fn set_offline(&mut self, offline: bool)
        ensures
            *final(self) == (EdgeManager {
                config: (ManagerConfig { offline, ..old(self).config }),
                ..*old(self)
            }),
    {
        self.config.offline = offline;
    }

    /// Sets the cache root under which metadata and artifacts live.
    pub fn set_cache_path(&mut self, cache_path: String)
        ensures
            *final(self) == (EdgeManager {
                config: (ManagerConfig { cache_path, ..old(self).config }),
                ..*old(self)
            }),
    {
        self.config.cache_path = cache_path;
    }

    /// Records the browser download URL learned from the product feed.
    pub fn set_browser_url(&mut self, url: String)
        ensures
            *final(self) == (EdgeManager { browser_url: Some(url), ..*old(self) }),
    {
        self.browser_url = Some(url);
    }

    /// The browser download URL learned during this run, or the empty
    /// string when none was learned yet.
    pub fn get_browser_url(&self) -> (r: String)
        ensures
            self.browser_url matches Some(u) ==> r@ == u@,
            self.browser_url is None ==> r@.len() == 0,
    {
        match &self.browser_url {
            Some(u) => u.clone(),
            None => String::new(),
        }
    }

    /// The subject major version of the requested browser version.
    pub fn get_major_browser_version(&self) -> (r: String)
        ensures
            r@ == major_of(self.config.browser_version@),
    {
        major_version(self.config.browser_version.as_str())
    }

    /// The recipe for local version discovery: the Edge beacon registry key
    /// and value on Windows, the version flag of the binary elsewhere.
    pub fn discover_browser_version_command(&self) -> (r: DiscoveryCommand)
        ensures
            r.registry_key@ == "HKCU\\Software\\Microsoft\\Edge\\BLBeacon"@,
            r.registry_value@ == "version"@,
            r.version_flag@ == "--version"@,
    {
        DiscoveryCommand {
            registry_key: "HKCU\\Software\\Microsoft\\Edge\\BLBeacon",
            registry_value: "version",
            version_flag: "--version",
        }
    }

    /// The msedgedriver download URL for the configured driver version and
    /// platform: a pure function of version, operating system and
    /// architecture.
    pub fn get_driver_url(&self) -> (r: Result<String, Error>)
        ensures
            r matches Ok(u) && u@ == edge_driver_url(
                self.config.driver_version@,
                self.config.os,
                self.config.arch,
            ),
    {
        let label: &'static str = match self.config.os {
            Os::Windows => match self.config.arch {
                Arch::Arm64 => "arm64",
                Arch::X32 => "win32",
                Arch::X64 => "win64",
            },
            Os::Macos => match self.config.arch {
                Arch::Arm64 => "mac64_m1",
                _ => "mac64",
            },
            Os::Linux => "linux64",
        };
        let mut url = String::new();
        url.append("https://msedgedriver.azureedge.net/");
        url.append(self.config.driver_version.as_str());
        url.append("/edgedriver_");
        url.append(label);
        url.append(".zip");
        proof {
            assert(url@ =~= edge_driver_url(
                self.config.driver_version@,
                self.config.os,
                self.config.arch,
            ));
        }
        Ok(url)
    }

    /// The platform label used in cache sub-paths.
    pub fn get_platform_label(&self) -> (r: &'static str)
        ensures
            r@ == edge_platform_label(self.config.os, self.config.arch),
    {
        match self.config.os {
            Os::Windows => match self.config.arch {
                Arch::Arm64 => "win-arm64",
                Arch::X32 => "win32",
                Arch::X64 => "win64",
            },
            Os::Macos => match self.config.arch {
                Arch::Arm64 => "mac-arm64",
                _ => "mac64",
            },
            Os::Linux => "linux64",
        }
    }

    /// The deterministic cache path of the configured driver version.
    pub fn get_driver_path_in_cache(&self) -> (r: String)
        ensures
            r@ == driver_path_in_cache(
                self.config.cache_path@,
                self.driver_name@,
                edge_platform_label(self.config.os, self.config.arch),
                self.config.driver_version@,
                self.config.os,
            ),
    {
        let label = self.get_platform_label();
        compose_driver_path_in_cache(
            self.config.cache_path.as_str(),
            self.driver_name,
            label,
            self.config.driver_version.as_str(),
            self.config.os,
        )
    }

    /// The deterministic cache directory of the configured browser version.
    pub fn get_browser_path_in_cache(&self) -> (r: String)
        ensures
            r@ == browser_path_in_cache(
                self.config.cache_path@,
                self.browser_name@,
                edge_platform_label(self.config.os, self.config.arch),
                self.config.browser_version@,
            ),
    {
        let label = self.get_platform_label();
        compose_browser_path_in_cache(
            self.config.cache_path.as_str(),
            self.browser_name,
            label,
            self.config.browser_version.as_str(),
        )
    }

    /// The path of the browser binary inside its cache directory: the
    /// channel's macOS application bundle binary there, the plain binary
    /// elsewhere.
    pub fn get_browser_binary_path_in_cache(&self) -> (r: String)
        ensures
            r@ == browser_path_in_cache(
                self.config.cache_path@,
                self.browser_name@,
                edge_platform_label(self.config.os, self.config.arch),
                self.config.browser_version@,
            ) + "/"@ + (if self.config.os is Macos {
                edge_macos_app_name(classified(self.config.browser_version@))
            } else {
                binary_file_name(self.browser_name@, self.config.os)
            }),
    {
        let mut path = self.get_browser_path_in_cache();
        path.append("/");
        if let Os::Macos = self.config.os {
            let app: &'static str = match classify(self.config.browser_version.as_str()) {
                Channel::Beta => "Microsoft Edge Beta.app/Contents/MacOS/Microsoft Edge Beta",
                Channel::Dev => "Microsoft Edge Dev.app/Contents/MacOS/Microsoft Edge Dev",
                Channel::Nightly => "Microsoft Edge Canary.app/Contents/MacOS/Microsoft Edge Canary",
                _ => "Microsoft Edge.app/Contents/MacOS/Microsoft Edge",
            };
            path.append(app);
        } else {
            let file = compose_binary_file_name(self.browser_name, self.config.os);
            path.append(file.as_str());
        }
        path
    }

    /// The native install path of the Edge binary for one platform cell.
    pub fn get_browser_path(&self, key: PlatformKey) -> (r: Option<&'static str>)
        ensures
            r is Some <==> edge_system_path(key) is Some,
            r is Some ==> r->0@ == edge_system_path(key)->0,
    {
        match (key.os, key.channel) {
            (Os::Windows, Channel::Stable) => Some("Microsoft\\Edge\\Application\\msedge.exe"),
            (Os::Windows, Channel::Beta) => Some("Microsoft\\Edge Beta\\Application\\msedge.exe"),
            (Os::Windows, Channel::Dev) => Some("Microsoft\\Edge Dev\\Application\\msedge.exe"),
            (Os::Windows, Channel::Nightly) => Some("Microsoft\\Edge SxS\\Application\\msedge.exe"),
            (Os::Macos, Channel::Stable) => Some(
                "/Applications/Microsoft Edge.app/Contents/MacOS/Microsoft Edge",
            ),
            (Os::Macos, Channel::Beta) => Some(
                "/Applications/Microsoft Edge Beta.app/Contents/MacOS/Microsoft Edge Beta",
            ),
            (Os::Macos, Channel::Dev) => Some(
                "/Applications/Microsoft Edge Dev.app/Contents/MacOS/Microsoft Edge Dev",
            ),
            (Os::Macos, Channel::Nightly) => Some(
                "/Applications/Microsoft Edge Canary.app/Contents/MacOS/Microsoft Edge Canary",
            ),
            (Os::Linux, Channel::Stable) => Some("/usr/bin/microsoft-edge"),
            (Os::Linux, Channel::Beta) => Some("/usr/bin/microsoft-edge-beta"),
            (Os::Linux, Channel::Dev) => Some("/usr/bin/microsoft-edge-dev"),
            _ => None,
        }
    }

    /// This vendor publishes no browser version beside its feeds.
    pub fn request_browser_version(&self) -> (r: Result<Option<String>, Error>)
        ensures
            r matches Ok(v) && v is None,
    {
        Ok(None)
    }

    /// Step one of driver resolution: answer from a valid cache entry when
    /// one exists; otherwise fail offline runs with the distinguished
    /// offline error. Online, requests that cannot address the per-major
    /// feed directly go to the generic latest-stable endpoint first (their
    /// answer feeds [`Self::request_driver_version_after_latest`]); pinned
    /// requests with a known major go straight to the per-major feed.
    pub fn request_driver_version_start(&self, metadata: &Metadata, now: u64) -> (r: Result<
        VersionRequest,
        Error,
    >)
        ensures
            self.cached_driver(*metadata, now) matches Some(v) ==> (r matches Ok(
                VersionRequest::Cached(c),
            ) && c@ == v),
            self.cached_driver(*metadata, now) is None && self.config.offline ==> (r matches Err(e)
                && e is Offline),
            self.cached_driver(*metadata, now) is None && !self.config.offline
                && self.needs_latest_first() ==> (r matches Ok(VersionRequest::FetchLatestFirst(u))
                && u@ == "https://msedgedriver.azureedge.net/"@ + "LATEST_STABLE"@),
            self.cached_driver(*metadata, now) is None && !self.config.offline
                && !self.needs_latest_first() ==> (r matches Ok(VersionRequest::Fetch(u)) && u@
                == edge_driver_version_feed(major_of(self.config.browser_version@), self.config.os)),
    {
        let major = major_version(self.config.browser_version.as_str());
        match get_driver_version_from_metadata(
            &metadata.drivers,
            self.driver_name,
            major.as_str(),
            now,
        ) {
            Some(driver_version) => Ok(VersionRequest::Cached(driver_version)),
            None => {
                if self.config.offline {
                    return Err(Error::Offline);
                }
                let channel = classify(self.config.browser_version.as_str());
                let is_fixed = matches!(channel, Channel::Fixed);
                if !is_fixed || major.as_str().is_empty() {
                    let mut url = String::new();
                    url.append("https://msedgedriver.azureedge.net/");
                    url.append("LATEST_STABLE");
                    Ok(VersionRequest::FetchLatestFirst(url))
                } else {
                    Ok(VersionRequest::Fetch(self.driver_version_feed_url(major.as_str())))
                }
            },
        }
    }

    /// The per-major driver version feed URL.
    pub fn driver_version_feed_url(&self, major: &str) -> (r: String)
        ensures
            r@ == edge_driver_version_feed(major@, self.config.os),
    {
        let mut url = String::new();
        url.append("https://msedgedriver.azureedge.net/");
        url.append("LATEST_RELEASE_");
        url.append(major);
        url.append("_");
        url.append(self.config.os.upper_name());
        proof {
            assert(url@ =~= edge_driver_version_feed(major@, self.config.os));
        }
        url
    }

    /// The step after the generic latest-stable endpoint answered
    /// `latest_driver_version`: re-derive the subject major version from it
    /// and address the per-major feed with that major. The returned pair is
    /// the re-derived major and the feed URL to fetch next.
    pub fn request_driver_version_after_latest(&self, latest_driver_version: &str) -> (r: (
        String,
        String,
    ))
        ensures
            r.0@ == major_of(latest_driver_version@),
            r.1@ == edge_driver_version_feed(major_of(latest_driver_version@), self.config.os),
    {
        let major = major_version(latest_driver_version);
        let url = self.driver_version_feed_url(major.as_str());
        (major, url)
    }

    /// Step two of driver resolution, after the per-major feed answered
    /// `driver_version` for the subject major version `major`: adopt it as
    /// the resolved driver version, and append it to the metadata document
    /// when the TTL is positive and the major is known; the caller persists
    /// the document exactly when this returns true.
    pub fn request_driver_version_finish(
        &mut self,
        metadata: &mut Metadata,
        major: &str,
        driver_version: String,
        now: u64,
    ) -> (persist: bool)
        requires
            now + old(self).config.ttl <= u64::MAX,
        ensures
            *final(self) == (EdgeManager {
                config: (ManagerConfig { driver_version, ..old(self).config }),
                ..*old(self)
            }),
            persist == (old(self).config.ttl > 0 && major@.len() > 0),
            final(metadata).browsers@ == old(metadata).browsers@,
            !persist ==> final(metadata).drivers@ == old(metadata).drivers@,
            persist ==> final(metadata).drivers@ == old(metadata).drivers@.push(
                final(metadata).drivers@.last(),
            ) && {
                let e = final(metadata).drivers@.last();
                e.name@ == old(self).driver_name@ && e.subject_major_version@ == major@
                    && e.resolved_version@ == driver_version@ && e.expires_at == now + old(
                    self,
                ).config.ttl
            },
    {
        let persist = record_driver_resolution(
            metadata,
            self.driver_name,
            major,
            driver_version.as_str(),
            self.config.ttl,
            now,
        );
        self.config.driver_version = driver_version;
        persist
    }

    /// Step one of browser provisioning: answer the browser version from a
    /// valid cache entry when one exists; otherwise direct the run to the
    /// product feed, in the enterprise view for pinned stable-channel
    /// requests and the plain view for unconstrained or unstable ones.
    pub fn download_browser_start(&self, metadata: &Metadata, now: u64) -> (r: Result<
        VersionRequest,
        Error,
    >)
        ensures
            self.cached_browser(*metadata, now) matches Some(v) ==> (r matches Ok(
                VersionRequest::Cached(c),
            ) && c@ == v),
            self.cached_browser(*metadata, now) is None ==> (r matches Ok(VersionRequest::Fetch(u))
                && u@ == edge_browser_feed_url(self.config.browser_version@)),
    {
        let major = major_version(self.config.browser_version.as_str());
        match get_browser_version_from_metadata(
            &metadata.browsers,
            self.browser_name,
            major.as_str(),
            now,
        ) {
            Some(browser_version) => Ok(VersionRequest::Cached(browser_version)),
            None => {
                let channel = classify(self.config.browser_version.as_str());
                let unstable = matches!(channel, Channel::Beta | Channel::Dev | Channel::Nightly);
                let mut url = String::new();
                url.append("https://edgeupdates.microsoft.com/api/products");
                if !(self.config.browser_version.as_str().is_empty() || unstable) {
                    url.append("?view=enterprise");
                }
                proof {
                    assert(url@ =~= edge_browser_feed_url(self.config.browser_version@));
                }
                Ok(VersionRequest::Fetch(url))
            },
        }
    }

    /// Selects, from the fetched product feed, the first artifact matching
    /// the configured channel, platform, architecture and the operating
    /// system's package type; an empty filtered list where one artifact was
    /// expected is a remote-resolution failure.
    pub fn select_release(&self, products: &Vec<EdgeProduct>) -> (r: Result<EdgeSelection, Error>)
        ensures
            edge_selection(
                products@,
                classified(self.config.browser_version@),
                self.config.os,
                self.config.arch,
            ) matches Some(sel) ==> (r matches Ok(s) && s.version@ == sel.0 && s.url@ == sel.1),
            edge_selection(
                products@,
                classified(self.config.browser_version@),
                self.config.os,
                self.config.arch,
            ) is None ==> (r matches Err(e) && e is RemoteResolutionFailed),
    {
        let channel = classify(self.config.browser_version.as_str());
        let channel_label: &'static str = match channel {
            Channel::Beta => "Beta",
            Channel::Dev => "Dev",
            Channel::Nightly => "Canary",
            _ => "Stable",
        };
        let os_label: &'static str = self.config.os.name();
        let arch_label: &'static str = match self.config.os {
            Os::Windows => match self.config.arch {
                Arch::Arm64 => "arm64",
                Arch::X32 => "x86",
                Arch::X64 => "x64",
            },
            Os::Macos => "universal",
            Os::Linux => "x64",
        };
        let package_label: &'static str = match self.config.os {
            Os::Windows => "msi",
            Os::Macos => "pkg",
            Os::Linux => "deb",
        };

        let np: usize = products.len();
        let mut pi: usize = 0;
        while pi < np
            invariant
                np == products@.len(),
                0 <= pi <= np,
                channel_label@ == edge_channel_label(classified(self.config.browser_version@)),
                os_label@ == os_name(self.config.os),
                arch_label@ == edge_arch_label(self.config.os, self.config.arch),
                package_label@ == edge_package_label(self.config.os),
                forall|j: int| 0 <= j < pi ==> !product_matches(products@[j], channel_label@),
            decreases np - pi,
        {
            if str_eq_ignore_ascii_case(products[pi].product.as_str(), channel_label) {
                proof {
                    lemma_first_product_at(products@, channel_label@, pi as int);
                }
                let releases: &Vec<Release> = &products[pi].releases;
                let nr: usize = releases.len();
                let mut ri: usize = 0;
                while ri < nr
                    invariant
                        nr == releases@.len(),
                        0 <= ri <= nr,
                        releases@ == products@[pi as int].releases@,
                        pi < np,
                        np == products@.len(),
                        first_product(products@, channel_label@) == Some(products@[pi as int]),
                        channel_label@ == edge_channel_label(
                            classified(self.config.browser_version@),
                        ),
                        os_label@ == os_name(self.config.os),
                        arch_label@ == edge_arch_label(self.config.os, self.config.arch),
                        package_label@ == edge_package_label(self.config.os),
                        forall|j: int|
                            0 <= j < ri ==> !release_matches(releases@[j], os_label@, arch_label@),
                    decreases nr - ri,
                {
                    if str_eq_ignore_ascii_case(releases[ri].platform.as_str(), os_label)
                        && str_eq_ignore_ascii_case(releases[ri].architecture.as_str(), arch_label) {
                        proof {
                            lemma_first_release_at(releases@, os_label@, arch_label@, ri as int);
                        }
                        let artifacts: &Vec<Artifact> = &releases[ri].artifacts;
                        let na: usize = artifacts.len();
                        let mut ai: usize = 0;
                        while ai < na
                            invariant
                                na == artifacts@.len(),
                                0 <= ai <= na,
                                artifacts@ == releases@[ri as int].artifacts@,
                                ri < nr,
                                nr == releases@.len(),
                                releases@ == products@[pi as int].releases@,
                                pi < np,
                                np == products@.len(),
                                first_product(products@, channel_label@) == Some(
                                    products@[pi as int],
                                ),
                                first_release(releases@, os_label@, arch_label@) == Some(
                                    releases@[ri as int],
                                ),
                                channel_label@ == edge_channel_label(
                                    classified(self.config.browser_version@),
                                ),
                                os_label@ == os_name(self.config.os),
                                arch_label@ == edge_arch_label(self.config.os, self.config.arch),
                                package_label@ == edge_package_label(self.config.os),
                                forall|j: int|
                                    0 <= j < ai ==> !artifact_matches(artifacts@[j], package_label@),
                            decreases na - ai,
                        {
                            if str_eq_ignore_ascii_case(
                                artifacts[ai].artifact_name.as_str(),
                                package_label,
                            ) {
                                proof {
                                    lemma_first_artifact_at(artifacts@, package_label@, ai as int);
                                }
                                return Ok(EdgeSelection {
                                    version: releases[ri].product_version.clone(),
                                    url: artifacts[ai].location.clone(),
                                });
                            }
                            ai = ai + 1;
                        }
                        proof {
                            lemma_first_artifact_none(artifacts@, package_label@);
                        }
                        return Err(self.remote_resolution_error());
                    }
                    ri = ri + 1;
                }
                proof {
                    lemma_first_release_none(releases@, os_label@, arch_label@);
                }
                return Err(self.remote_resolution_error());
            }
            pi = pi + 1;
        }
        proof {
            lemma_first_product_none(products@, channel_label@);
        }
        Err(self.remote_resolution_error())
    }

    /// A remote-resolution failure naming this vendor: no entry of its
    /// product feed matched the applied filters.
    fn remote_resolution_error(&self) -> (r: Error)
        ensures
            r is RemoteResolutionFailed,
    {
        let mut vendor = String::new();
        vendor.append("edge");
        let mut detail = String::new();
        detail.append("no matching release or artifact in the product feed");
        Error::RemoteResolutionFailed { vendor, detail }
    }

    /// Step two of browser provisioning, after the product feed answered
    /// `browser_version`: adopt it as the browser version under provision,
    /// and append it to the metadata document when the TTL is positive and
    /// the version is a concrete one; the caller persists the document
    /// exactly when this returns true.
    pub fn download_browser_finish(
        &mut self,
        metadata: &mut Metadata,
        browser_version: String,
        now: u64,
    ) -> (persist: bool)
        requires
            now + old(self).config.ttl <= u64::MAX,
        ensures
            *final(self) == (EdgeManager {
                config: (ManagerConfig { browser_version, ..old(self).config }),
                ..*old(self)
            }),
            persist == (old(self).config.ttl > 0 && browser_version@.len() > 0 && !eq_ignore_case(
                browser_version@,
                "stable"@,
            )),
            final(metadata).drivers@ == old(metadata).drivers@,
            !persist ==> final(metadata).browsers@ == old(metadata).browsers@,
            persist ==> final(metadata).browsers@ == old(metadata).browsers@.push(
                final(metadata).browsers@.last(),
            ) && {
                let e = final(metadata).browsers@.last();
                e.name@ == old(self).browser_name@ && e.subject_major_version@ == major_of(
                    old(self).config.browser_version@,
                ) && e.resolved_version@ == browser_version@ && e.expires_at == now + old(
                    self,
                ).config.ttl
            },
    {
        let major = major_version(self.config.browser_version.as_str());
        let persist = record_browser_resolution(
            metadata,
            self.browser_name,
            major.as_str(),
            browser_version.as_str(),
            self.config.ttl,
            now,
        );
        self.config.browser_version = browser_version;
        persist
    }
}

/// Resolution idempotence at the manager level: when a driver lookup missed
/// at `now` and the finish step then appended the version freshly resolved
/// for the same subject major (the appended entry is exactly what
/// [`EdgeManager::request_driver_version_finish`] ensures), any second
/// resolution before the entry expires answers from the cache, so it makes
/// no network call.
pub proof fn lemma_edge_driver_resolution_idempotent(
    m: EdgeManager,
    before: Metadata,
    after: Metadata,
    version: Seq<char>,
    now: u64,
    later: u64,
)
    requires
        m.cached_driver(before, now) is None,
        after.drivers@ == before.drivers@.push(after.drivers@.last()),
        after.drivers@.last().name@ == m.driver_name@,
        after.drivers@.last().subject_major_version@ == major_of(m.config.browser_version@),
        after.drivers@.last().resolved_version@ == version,
        now <= later < after.drivers@.last().expires_at,
    ensures
        m.cached_driver(after, later) == Some(version),
{
    crate::metadata::lemma_cache_idempotent(
        before.drivers@,
        after.drivers@.last(),
        m.driver_name@,
        major_of(m.config.browser_version@),
        now,
        later,
    );
}

/// The native install path of the Edge binary for one platform cell, or
/// `None` where the table has no entry.
pub open spec fn edge_system_path(key: PlatformKey) -> Option<Seq<char>> {
    match (key.os, key.channel) {
        (Os::Windows, Channel::Stable) => Some("Microsoft\\Edge\\Application\\msedge.exe"@),
        (Os::Windows, Channel::Beta) => Some("Microsoft\\Edge Beta\\Application\\msedge.exe"@),
        (Os::Windows, Channel::Dev) => Some("Microsoft\\Edge Dev\\Application\\msedge.exe"@),
        (Os::Windows, Channel::Nightly) => Some("Microsoft\\Edge SxS\\Application\\msedge.exe"@),
        (Os::Macos, Channel::Stable) => Some(
            "/Applications/Microsoft Edge.app/Contents/MacOS/Microsoft Edge"@,
        ),
        (Os::Macos, Channel::Beta) => Some(
            "/Applications/Microsoft Edge Beta.app/Contents/MacOS/Microsoft Edge Beta"@,
        ),
        (Os::Macos, Channel::Dev) => Some(
            "/Applications/Microsoft Edge Dev.app/Contents/MacOS/Microsoft Edge Dev"@,
        ),
        (Os::Macos, Channel::Nightly) => Some(
            "/Applications/Microsoft Edge Canary.app/Contents/MacOS/Microsoft Edge Canary"@,
        ),
        (Os::Linux, Channel::Stable) => Some("/usr/bin/microsoft-edge"@),
        (Os::Linux, Channel::Beta) => Some("/usr/bin/microsoft-edge-beta"@),
        (Os::Linux, Channel::Dev) => Some("/usr/bin/microsoft-edge-dev"@),
        _ => None,
    }
}

} // verus!

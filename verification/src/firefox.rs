//! The Gecko family manager: the Firefox browser and its geckodriver driver.
//!
//! Driver versions are resolved from the vendor's latest-release redirect,
//! browser versions from the product-details feed. The vendor started
//! shipping ARM64 driver archives with driver minor 32: under that minor an
//! ARM64 request deliberately falls back to the matching x86-64 label, a
//! compatibility shim rather than an error.

use vstd::prelude::*;
use vstd::string::StringExecFns;

use crate::config::{
    arch_of, is_default_config, os_of, Arch, DiscoveryCommand, ManagerConfig, Os, PlatformKey,
};
use crate::files::{
    binary_file_name, browser_path_in_cache, compose_binary_file_name,
    compose_browser_path_in_cache, compose_driver_path_in_cache, driver_path_in_cache,
};
use crate::metadata::{
    found_browser_version, found_driver_version, get_browser_version_from_metadata,
    get_driver_version_from_metadata, record_browser_resolution, record_driver_resolution,
    Metadata,
};
use crate::strutil::{eq_ignore_case, parse_or_zero, parsed_or_zero};
use crate::version::{
    classified, classify, has_minor, major_of, major_version, minor_of, minor_version, Channel,
};
use crate::{Error, VersionRequest};

verus! {

/// A manager instance for the Gecko family: stable identifiers used as
/// cache keys, and the per-invocation configuration.
pub struct FirefoxManager {
    pub browser_name: &'static str,
    pub driver_name: &'static str,
    pub config: ManagerConfig,
}

/// The archive label a geckodriver release carries for a platform, given the
/// numeric minor version of the driver. On Windows and Linux an ARM64
/// request is honoured only when the minor is greater than 31 and otherwise
/// falls back to the x86-64 label; macOS has no such gate.
pub open spec fn gecko_driver_label(minor: int, os: Os, arch: Arch) -> Seq<char> {
    match os {
        Os::Windows => if arch is X32 {
            "win32.zip"@
        } else if arch is Arm64 && minor > 31 {
            "win-aarch64.zip"@
        } else {
            "win64.zip"@
        },
        Os::Macos => if arch is Arm64 {
            "macos-aarch64.tar.gz"@
        } else {
            "macos.tar.gz"@
        },
        Os::Linux => if arch is X32 {
            "linux32.tar.gz"@
        } else if arch is Arm64 && minor > 31 {
            "linux-aarch64.tar.gz"@
        } else {
            "linux64.tar.gz"@
        },
    }
}

/// The geckodriver download URL for a driver version and platform.
pub open spec fn gecko_driver_url(
    driver_name: Seq<char>,
    version: Seq<char>,
    os: Os,
    arch: Arch,
) -> Seq<char> {
    "https://github.com/mozilla/geckodriver/releases/"@ + "download/v"@ + version + "/"@
        + driver_name + "-v"@ + version + "-"@ + gecko_driver_label(
        parsed_or_zero(minor_of(version)),
        os,
        arch,
    )
}

/// The platform label used in geckodriver cache sub-paths, gated on the
/// driver minor version exactly as the download label is; a version without
/// a minor component counts as minor zero.
pub open spec fn gecko_platform_label(version: Seq<char>, os: Os, arch: Arch) -> Seq<char> {
    let minor = if has_minor(version) {
        parsed_or_zero(minor_of(version))
    } else {
        0
    };
    match os {
        Os::Windows => if arch is X32 {
            "win32"@
        } else if arch is Arm64 && minor > 31 {
            "win-arm64"@
        } else {
            "win64"@
        },
        Os::Macos => if arch is Arm64 {
            "mac-arm64"@
        } else {
            "mac64"@
        },
        Os::Linux => if arch is X32 {
            "linux32"@
        } else if arch is Arm64 && minor > 31 {
            "linux-arm64"@
        } else {
            "linux64"@
        },
    }
}

/// The platform label in Firefox release-archive download URLs.
pub open spec fn firefox_browser_label(os: Os, arch: Arch) -> Seq<char> {
    match os {
        Os::Windows => if arch is X32 {
            "win32"@
        } else if arch is Arm64 {
            "win-aarch64"@
        } else {
            "win64"@
        },
        Os::Macos => "mac"@,
        Os::Linux => if arch is X32 {
            "linux-i686"@
        } else {
            "linux-x86_64"@
        },
    }
}

/// The artifact-name prefix of a Firefox installer for an operating system.
pub open spec fn firefox_artifact_name(os: Os) -> Seq<char> {
    match os {
        Os::Windows => "Firefox%20Setup%20"@,
        Os::Macos => "Firefox%20"@,
        Os::Linux => "firefox-"@,
    }
}

/// The artifact extension of a Firefox installer for an operating system.
pub open spec fn firefox_artifact_extension(os: Os) -> Seq<char> {
    match os {
        Os::Windows => "exe"@,
        Os::Macos => "pkg"@,
        Os::Linux => "tar.bz2"@,
    }
}

/// The Firefox release-archive download URL for a browser version and
/// platform, in the default language.
pub open spec fn firefox_browser_url(version: Seq<char>, os: Os, arch: Arch) -> Seq<char> {
    "https://ftp.mozilla.org/pub/firefox/releases/"@ + version + "/"@ + firefox_browser_label(
        os,
        arch,
    ) + "/"@ + "en-US"@ + "/"@ + firefox_artifact_name(os) + version + "."@
        + firefox_artifact_extension(os)
}

/// The native install path of the Firefox binary for one platform cell, or
/// `None` where the table has no entry (a pinned exact version names no
/// install location).
pub open spec fn firefox_system_path(key: PlatformKey) -> Option<Seq<char>> {
    match (key.os, key.channel) {
        (Os::Windows, Channel::Stable) => Some("Mozilla Firefox\\firefox.exe"@),
        (Os::Windows, Channel::Beta) => Some("Mozilla Firefox\\firefox.exe"@),
        (Os::Windows, Channel::Dev) => Some("Firefox Developer Edition\\firefox.exe"@),
        (Os::Windows, Channel::Nightly) => Some("Firefox Nightly\\firefox.exe"@),
        (Os::Macos, Channel::Stable) => Some("/Applications/Firefox.app/Contents/MacOS/firefox"@),
        (Os::Macos, Channel::Beta) => Some("/Applications/Firefox.app/Contents/MacOS/firefox"@),
        (Os::Macos, Channel::Dev) => Some(
            "/Applications/Firefox Developer Edition.app/Contents/MacOS/firefox"@,
        ),
        (Os::Macos, Channel::Nightly) => Some(
            "/Applications/Firefox Nightly.app/Contents/MacOS/firefox"@,
        ),
        (Os::Linux, Channel::Stable) => Some("/usr/bin/firefox"@),
        (Os::Linux, Channel::Beta) => Some("/usr/bin/firefox"@),
        (Os::Linux, Channel::Dev) => Some("/usr/bin/firefox"@),
        (Os::Linux, Channel::Nightly) => Some("/usr/bin/firefox-trunk"@),
        (_, Channel::Fixed) => None,
    }
}

impl FirefoxManager {
    /// The resolved version of the first valid driver cache entry for this
    /// manager's driver and the subject major version of the requested
    /// browser version.
    pub open spec fn cached_driver(&self, metadata: Metadata, now: u64) -> Option<Seq<char>> {
        found_driver_version(
            metadata.drivers@,
            self.driver_name@,
            major_of(self.config.browser_version@),
            now,
        )
    }

    /// The resolved version of the first valid browser cache entry for this
    /// manager's browser and the requested subject major version.
    pub open spec fn cached_browser(&self, metadata: Metadata, now: u64) -> Option<Seq<char>> {
        found_browser_version(
            metadata.browsers@,
            self.browser_name@,
            major_of(self.config.browser_version@),
            now,
        )
    }

    /// A fresh Gecko manager with the default configuration.
    pub fn new() -> (r: Result<Box<FirefoxManager>, Error>)
        ensures
            r matches Ok(m) && m.browser_name@ == "firefox"@ && m.driver_name@ == "geckodriver"@
                && is_default_config(m.config, "firefox"@, "geckodriver"@),
    {
        let browser_name = "firefox";
        let driver_name = "geckodriver";
        let config = ManagerConfig::new(browser_name, driver_name);
        Ok(Box::new(FirefoxManager { browser_name, driver_name, config }))
    }

    /// The stable browser identifier used as a cache key.
    pub fn get_browser_name(&self) -> (r: &str)
        ensures
            r@ == self.browser_name@,
    {
        self.browser_name
    }

    /// The stable driver identifier used as a cache key.
    pub fn get_driver_name(&self) -> (r: &str)
        ensures
            r@ == self.driver_name@,
    {
        self.driver_name
    }

    /// The manager's configuration.
    pub fn get_config(&self) -> (r: &ManagerConfig)
        ensures
            r == self.config,
    {
        &self.config
    }

    /// A mutable borrow of the manager's configuration.
    pub fn get_config_mut(&mut self) -> (r: &mut ManagerConfig)
        ensures
            *r == old(self).config,
            *final(self) == (FirefoxManager { config: *final(r), ..*old(self) }),
    {
        &mut self.config
    }

    /// Replaces the manager's configuration.
    pub fn set_config(&mut self, config: ManagerConfig)
        ensures
            *final(self) == (FirefoxManager { config, ..*old(self) }),
    {
        self.config = config;
    }

    /// Sets the requested browser version.
    pub fn set_browser_version(&mut self, browser_version: String)
        ensures
            *final(self) == (FirefoxManager {
                config: (ManagerConfig { browser_version, ..old(self).config }),
                ..*old(self)
            }),
    {
        self.config.browser_version = browser_version;
    }

    /// Sets the resolved driver version.
    pub fn set_driver_version(&mut self, driver_version: String)
        ensures
            *final(self) == (FirefoxManager {
                config: (ManagerConfig { driver_version, ..old(self).config }),
                ..*old(self)
            }),
    {
        self.config.driver_version = driver_version;
    }

    /// Normalizes and sets the operating system.
    pub fn set_os(&mut self, os: String)
        ensures
            *final(self) == (FirefoxManager {
                config: (ManagerConfig { os: os_of(os@), ..old(self).config }),
                ..*old(self)
            }),
    {
        self.config.os = crate::config::parse_os(os.as_str());
    }

    /// Normalizes and sets the architecture.
    pub fn set_arch(&mut self, arch: String)
        ensures
            *final(self) == (FirefoxManager {
                config: (ManagerConfig { arch: arch_of(arch@), ..old(self).config }),
                ..*old(self)
            }),
    {
        self.config.arch = crate::config::parse_arch(arch.as_str());
    }

    /// Sets the cache TTL in seconds; zero disables caching.
    pub fn set_ttl(&mut self, ttl: u64)
        ensures
            *final(self) == (FirefoxManager {
                config: (ManagerConfig { ttl, ..old(self).config }),
                ..*old(self)
            }),
    {
        self.config.ttl = ttl;
    }

    /// Sets the offline flag.
    pub fn set_offline(&mut self, offline: bool)
        ensures
            *final(self) == (FirefoxManager {
                config: (ManagerConfig { offline, ..old(self).config }),
                ..*old(self)
            }),
    {
        self.config.offline = offline;
    }

    /// Sets the cache root under which metadata and artifacts live.
    pub fn set_cache_path(&mut self, cache_path: String)
        ensures
            *final(self) == (FirefoxManager {
                config: (ManagerConfig { cache_path, ..old(self).config }),
                ..*old(self)
            }),
    {
        self.config.cache_path = cache_path;
    }

    /// The product-details URL of one endpoint.
    pub fn create_firefox_details_url(&self, endpoint: &str) -> (r: String)
        ensures
            r@ == "https://product-details.mozilla.org/1.0/"@ + endpoint@,
    {
        let mut url = String::new();
        url.append("https://product-details.mozilla.org/1.0/");
        url.append(endpoint);
        proof {
            assert(url@ =~= "https://product-details.mozilla.org/1.0/"@ + endpoint@);
        }
        url
    }

    /// The recipe for local version discovery: the Firefox registry key and
    /// value on Windows, the version flag of the binary elsewhere.
    pub fn discover_browser_version_command(&self) -> (r: DiscoveryCommand)
        ensures
            r.registry_key@ == "HKCU\\Software\\Mozilla\\Mozilla Firefox"@,
            r.registry_value@ == "CurrentVersion"@,
            r.version_flag@ == "-v"@,
    {
        DiscoveryCommand {
            registry_key: "HKCU\\Software\\Mozilla\\Mozilla Firefox",
            registry_value: "CurrentVersion",
            version_flag: "-v",
        }
    }

    /// The native install path of the Firefox binary for one platform cell.
    pub fn get_browser_path(&self, key: PlatformKey) -> (r: Option<&'static str>)
        ensures
            r is Some <==> firefox_system_path(key) is Some,
            r is Some ==> r->0@ == firefox_system_path(key)->0,
    {
        match (key.os, key.channel) {
            (Os::Windows, Channel::Stable) => Some("Mozilla Firefox\\firefox.exe"),
            (Os::Windows, Channel::Beta) => Some("Mozilla Firefox\\firefox.exe"),
            (Os::Windows, Channel::Dev) => Some("Firefox Developer Edition\\firefox.exe"),
            (Os::Windows, Channel::Nightly) => Some("Firefox Nightly\\firefox.exe"),
            (Os::Macos, Channel::Stable) => Some("/Applications/Firefox.app/Contents/MacOS/firefox"),
            (Os::Macos, Channel::Beta) => Some("/Applications/Firefox.app/Contents/MacOS/firefox"),
            (Os::Macos, Channel::Dev) => Some(
                "/Applications/Firefox Developer Edition.app/Contents/MacOS/firefox",
            ),
            (Os::Macos, Channel::Nightly) => Some(
                "/Applications/Firefox Nightly.app/Contents/MacOS/firefox",
            ),
            (Os::Linux, Channel::Stable) => Some("/usr/bin/firefox"),
            (Os::Linux, Channel::Beta) => Some("/usr/bin/firefox"),
            (Os::Linux, Channel::Dev) => Some("/usr/bin/firefox"),
            (Os::Linux, Channel::Nightly) => Some("/usr/bin/firefox-trunk"),
            (_, Channel::Fixed) => None,
        }
    }

    /// The geckodriver download URL for the configured driver version and
    /// platform: a pure function of version, operating system and
    /// architecture, failing only when the version string has no minor
    /// component to gate ARM64 support on.
    pub fn get_driver_url(&self) -> (r: Result<String, Error>)
        ensures
            has_minor(self.config.driver_version@) ==> (r matches Ok(u) && u@ == gecko_driver_url(
                self.driver_name@,
                self.config.driver_version@,
                self.config.os,
                self.config.arch,
            )),
            !has_minor(self.config.driver_version@) ==> (r matches Err(e) && e is Unsupported),
    {
        let version: &str = self.config.driver_version.as_str();
        let minor_component: Option<String> = minor_version(version);
        let minor: i32 = match minor_component {
            Some(m) => parse_or_zero(m.as_str()),
            None => {
                return Err(Error::Unsupported);
            },
        };
        let label: &'static str = match self.config.os {
            Os::Windows => match self.config.arch {
                Arch::X32 => "win32.zip",
                Arch::Arm64 => if minor > 31 {
                    "win-aarch64.zip"
                } else {
                    "win64.zip"
                },
                Arch::X64 => "win64.zip",
            },
            Os::Macos => match self.config.arch {
                Arch::Arm64 => "macos-aarch64.tar.gz",
                _ => "macos.tar.gz",
            },
            Os::Linux => match self.config.arch {
                Arch::X32 => "linux32.tar.gz",
                Arch::Arm64 => if minor > 31 {
                    "linux-aarch64.tar.gz"
                } else {
                    "linux64.tar.gz"
                },
                Arch::X64 => "linux64.tar.gz",
            },
        };
        let mut url = String::new();
        url.append("https://github.com/mozilla/geckodriver/releases/");
        url.append("download/v");
        url.append(version);
        url.append("/");
        url.append(self.driver_name);
        url.append("-v");
        url.append(version);
        url.append("-");
        url.append(label);
        proof {
            assert(url@ =~= gecko_driver_url(
                self.driver_name@,
                self.config.driver_version@,
                self.config.os,
                self.config.arch,
            ));
        }
        Ok(url)
    }

    /// The platform label used in cache sub-paths for the configured driver
    /// version and platform.
    pub fn get_platform_label(&self) -> (r: &'static str)
        ensures
            r@ == gecko_platform_label(
                self.config.driver_version@,
                self.config.os,
                self.config.arch,
            ),
    {
        let minor: i32 = match minor_version(self.config.driver_version.as_str()) {
            Some(m) => parse_or_zero(m.as_str()),
            None => 0,
        };
        match self.config.os {
            Os::Windows => match self.config.arch {
                Arch::X32 => "win32",
                Arch::Arm64 => if minor > 31 {
                    "win-arm64"
                } else {
                    "win64"
                },
                Arch::X64 => "win64",
            },
            Os::Macos => match self.config.arch {
                Arch::Arm64 => "mac-arm64",
                _ => "mac64",
            },
            Os::Linux => match self.config.arch {
                Arch::X32 => "linux32",
                Arch::Arm64 => if minor > 31 {
                    "linux-arm64"
                } else {
                    "linux64"
                },
                Arch::X64 => "linux64",
            },
        }
    }

    /// The deterministic cache path of the configured driver version.
    pub fn get_driver_path_in_cache(&self) -> (r: String)
        ensures
            r@ == driver_path_in_cache(
                self.config.cache_path@,
                self.driver_name@,
                gecko_platform_label(self.config.driver_version@, self.config.os, self.config.arch),
                self.config.driver_version@,
                self.config.os,
            ),
    {
        let label = self.get_platform_label();
        compose_driver_path_in_cache(
            self.config.cache_path.as_str(),
            self.driver_name,
            label,
            self.config.driver_version.as_str(),
            self.config.os,
        )
    }

    /// The deterministic cache directory of the configured browser version.
    pub fn get_browser_path_in_cache(&self) -> (r: String)
        ensures
            r@ == browser_path_in_cache(
                self.config.cache_path@,
                self.browser_name@,
                gecko_platform_label(self.config.driver_version@, self.config.os, self.config.arch),
                self.config.browser_version@,
            ),
    {
        let label = self.get_platform_label();
        compose_browser_path_in_cache(
            self.config.cache_path.as_str(),
            self.browser_name,
            label,
            self.config.browser_version.as_str(),
        )
    }

    /// The path of the browser binary inside its cache directory: the macOS
    /// application bundle binary there, the plain binary elsewhere.
    pub fn get_browser_binary_path_in_cache(&self) -> (r: String)
        ensures
            r@ == browser_path_in_cache(
                self.config.cache_path@,
                self.browser_name@,
                gecko_platform_label(self.config.driver_version@, self.config.os, self.config.arch),
                self.config.browser_version@,
            ) + "/"@ + (if self.config.os is Macos {
                "Firefox.app/Contents/MacOS/firefox"@
            } else {
                binary_file_name(self.browser_name@, self.config.os)
            }),
    {
        let mut path = self.get_browser_path_in_cache();
        path.append("/");
        if let Os::Macos = self.config.os {
            path.append("Firefox.app/Contents/MacOS/firefox");
        } else {
            let file = compose_binary_file_name(self.browser_name, self.config.os);
            path.append(file.as_str());
        }
        path
    }

    /// The Firefox release-archive download URL for the configured browser
    /// version and platform.
    pub fn get_browser_url(&self) -> (r: String)
        ensures
            r@ == firefox_browser_url(
                self.config.browser_version@,
                self.config.os,
                self.config.arch,
            ),
    {
        let version: &str = self.config.browser_version.as_str();
        let label: &'static str = match self.config.os {
            Os::Windows => match self.config.arch {
                Arch::X32 => "win32",
                Arch::Arm64 => "win-aarch64",
                Arch::X64 => "win64",
            },
            Os::Macos => "mac",
            Os::Linux => match self.config.arch {
                Arch::X32 => "linux-i686",
                _ => "linux-x86_64",
            },
        };
        let artifact_name: &'static str = match self.config.os {
            Os::Windows => "Firefox%20Setup%20",
            Os::Macos => "Firefox%20",
            Os::Linux => "firefox-",
        };
        let extension: &'static str = match self.config.os {
            Os::Windows => "exe",
            Os::Macos => "pkg",
            Os::Linux => "tar.bz2",
        };
        let mut url = String::new();
        url.append("https://ftp.mozilla.org/pub/firefox/releases/");
        url.append(version);
        url.append("/");
        url.append(label);
        url.append("/");
        url.append("en-US");
        url.append("/");
        url.append(artifact_name);
        url.append(version);
        url.append(".");
        url.append(extension);
        proof {
            assert(url@ =~= firefox_browser_url(
                self.config.browser_version@,
                self.config.os,
                self.config.arch,
            ));
        }
        url
    }

    /// This vendor publishes no browser version beside its feeds.
    pub fn request_browser_version(&self) -> (r: Result<Option<String>, Error>)
        ensures
            r matches Ok(v) && v is None,
    {
        Ok(None)
    }

    /// Step one of driver resolution: answer from a valid cache entry when
    /// one exists; otherwise fail offline runs with the distinguished
    /// offline error, and direct online runs to the vendor's latest-release
    /// redirect, whose answer feeds [`Self::request_driver_version_finish`].
    pub fn request_driver_version_start(&self, metadata: &Metadata, now: u64) -> (r: Result<
        VersionRequest,
        Error,
    >)
        ensures
            self.cached_driver(*metadata, now) matches Some(v) ==> (r matches Ok(
                VersionRequest::Cached(c),
            ) && c@ == v),
            self.cached_driver(*metadata, now) is None && self.config.offline ==> (r matches Err(e)
                && e is Offline),
            self.cached_driver(*metadata, now) is None && !self.config.offline ==> (r matches Ok(
                VersionRequest::Fetch(u),
            ) && u@ == "https://github.com/mozilla/geckodriver/releases/"@ + "latest"@),
    {
        let major = major_version(self.config.browser_version.as_str());
        match get_driver_version_from_metadata(
            &metadata.drivers,
            self.driver_name,
            major.as_str(),
            now,
        ) {
            Some(driver_version) => Ok(VersionRequest::Cached(driver_version)),
            None => {
                if self.config.offline {
                    return Err(Error::Offline);
                }
                let mut url = String::new();
                url.append("https://github.com/mozilla/geckodriver/releases/");
                url.append("latest");
                Ok(VersionRequest::Fetch(url))
            },
        }
    }

    /// Step two of driver resolution, after the vendor answered
    /// `driver_version`: adopt it as the resolved driver version, and append
    /// it to the metadata document when the TTL is positive and the subject
    /// major version is known; the caller persists the document exactly when
    /// this returns true.
    pub fn request_driver_version_finish(
        &mut self,
        metadata: &mut Metadata,
        driver_version: String,
        now: u64,
    ) -> (persist: bool)
        requires
            now + old(self).config.ttl <= u64::MAX,
        ensures
            *final(self) == (FirefoxManager {
                config: (ManagerConfig { driver_version, ..old(self).config }),
                ..*old(self)
            }),
            persist == (old(self).config.ttl > 0 && major_of(
                old(self).config.browser_version@,
            ).len() > 0),
            final(metadata).browsers@ == old(metadata).browsers@,
            !persist ==> final(metadata).drivers@ == old(metadata).drivers@,
            persist ==> final(metadata).drivers@ == old(metadata).drivers@.push(
                final(metadata).drivers@.last(),
            ) && {
                let e = final(metadata).drivers@.last();
                e.name@ == old(self).driver_name@ && e.subject_major_version@ == major_of(
                    old(self).config.browser_version@,
                ) && e.resolved_version@ == driver_version@ && e.expires_at == now + old(
                    self,
                ).config.ttl
            },
    {
        let major = major_version(self.config.browser_version.as_str());
        let persist = record_driver_resolution(
            metadata,
            self.driver_name,
            major.as_str(),
            driver_version.as_str(),
            self.config.ttl,
            now,
        );
        self.config.driver_version = driver_version;
        persist
    }

    /// Step one of browser provisioning: answer the browser version from a
    /// valid cache entry when one exists; otherwise direct stable or
    /// unconstrained requests to the product-details latest-version feed,
    /// and reject pinned versions, which this vendor's feed cannot answer,
    /// with an error distinguishable from any network failure.
    pub fn download_browser_start(&self, metadata: &Metadata, now: u64) -> (r: Result<
        VersionRequest,
        Error,
    >)
        ensures
            self.cached_browser(*metadata, now) matches Some(v) ==> (r matches Ok(
                VersionRequest::Cached(c),
            ) && c@ == v),
            self.cached_browser(*metadata, now) is None && classified(
                self.config.browser_version@,
            ) is Stable ==> (r matches Ok(VersionRequest::Fetch(u)) && u@
                == "https://product-details.mozilla.org/1.0/"@ + "firefox_versions.json"@),
            self.cached_browser(*metadata, now) is None && !(classified(
                self.config.browser_version@,
            ) is Stable) ==> (r matches Err(e) && e is Unsupported),
    {
        let major = major_version(self.config.browser_version.as_str());
        match get_browser_version_from_metadata(
            &metadata.browsers,
            self.browser_name,
            major.as_str(),
            now,
        ) {
            Some(browser_version) => Ok(VersionRequest::Cached(browser_version)),
            None => {
                let channel = classify(self.config.browser_version.as_str());
                if let Channel::Stable = channel {
                    Ok(VersionRequest::Fetch(self.create_firefox_details_url(
                        "firefox_versions.json",
                    )))
                } else {
                    Err(Error::Unsupported)
                }
            },
        }
    }

    /// Step two of browser provisioning, after the feed answered
    /// `browser_version`: adopt it as the browser version under provision,
    /// and append it to the metadata document when the TTL is positive and
    /// the version is a concrete one; the caller persists the document
    /// exactly when this returns true.
    pub fn download_browser_finish(
        &mut self,
        metadata: &mut Metadata,
        browser_version: String,
        now: u64,
    ) -> (persist: bool)
        requires
            now + old(self).config.ttl <= u64::MAX,
        ensures
            *final(self) == (FirefoxManager {
                config: (ManagerConfig { browser_version, ..old(self).config }),
                ..*old(self)
            }),
            persist == (old(self).config.ttl > 0 && browser_version@.len() > 0 && !eq_ignore_case(
                browser_version@,
                "stable"@,
            )),
            final(metadata).drivers@ == old(metadata).drivers@,
            !persist ==> final(metadata).browsers@ == old(metadata).browsers@,
            persist ==> final(metadata).browsers@ == old(metadata).browsers@.push(
                final(metadata).browsers@.last(),
            ) && {
                let e = final(metadata).browsers@.last();
                e.name@ == old(self).browser_name@ && e.subject_major_version@ == major_of(
                    old(self).config.browser_version@,
                ) && e.resolved_version@ == browser_version@ && e.expires_at == now + old(
                    self,
                ).config.ttl
            },
    {
        let major = major_version(self.config.browser_version.as_str());
        let persist = record_browser_resolution(
            metadata,
            self.browser_name,
            major.as_str(),
            browser_version.as_str(),
            self.config.ttl,
            now,
        );
        self.config.browser_version = browser_version;
        persist
    }
}

/// Resolution idempotence at the manager level: when a driver lookup missed
/// at `now` and the finish step then appended the freshly resolved version
/// (the appended entry is exactly what
/// [`FirefoxManager::request_driver_version_finish`] ensures), any second
/// resolution before the entry expires answers from the cache, so it makes
/// no network call.
pub proof fn lemma_driver_resolution_idempotent(
    m: FirefoxManager,
    before: Metadata,
    after: Metadata,
    version: Seq<char>,
    now: u64,
    later: u64,
)
    requires
        m.cached_driver(before, now) is None,
        after.drivers@ == before.drivers@.push(after.drivers@.last()),
        after.drivers@.last().name@ == m.driver_name@,
        after.drivers@.last().subject_major_version@ == major_of(m.config.browser_version@),
        after.drivers@.last().resolved_version@ == version,
        now <= later < after.drivers@.last().expires_at,
    ensures
        m.cached_driver(after, later) == Some(version),
{
    crate::metadata::lemma_cache_idempotent(
        before.drivers@,
        after.drivers@.last(),
        m.driver_name@,
        major_of(m.config.browser_version@),
        now,
        later,
    );
    assert(after.drivers@ =~= before.drivers@.push(after.drivers@.last()));
}

/// The driver download URL is a pure deterministic function of the driver
/// version, the operating system and the architecture: two results of the
/// same synthesis over identical inputs are one URL string.
pub proof fn lemma_driver_url_deterministic(
    r1: Seq<char>,
    r2: Seq<char>,
    driver_name: Seq<char>,
    version: Seq<char>,
    os: Os,
    arch: Arch,
)
    requires
        r1 == gecko_driver_url(driver_name, version, os, arch),
        r2 == gecko_driver_url(driver_name, version, os, arch),
    ensures
        r1 == r2,
{
}

/// ARM64 gating: on the operating systems whose ARM64 driver builds appear
/// only above minor 31, a driver minor of at most 31 resolves an ARM64
/// request to the matching x86-64 labels, and a minor above 31 resolves it
/// to the ARM64-specific labels.
pub proof fn lemma_arm64_gate(version: Seq<char>, os: Os)
    requires
        os is Windows || os is Linux,
        has_minor(version),
    ensures
        parsed_or_zero(minor_of(version)) <= 31 ==> gecko_driver_label(
            parsed_or_zero(minor_of(version)),
            os,
            Arch::Arm64,
        ) == gecko_driver_label(parsed_or_zero(minor_of(version)), os, Arch::X64),
        parsed_or_zero(minor_of(version)) <= 31 ==> gecko_platform_label(version, os, Arch::Arm64)
            == gecko_platform_label(version, os, Arch::X64),
        parsed_or_zero(minor_of(version)) > 31 && os is Windows ==> gecko_driver_label(
            parsed_or_zero(minor_of(version)),
            os,
            Arch::Arm64,
        ) == "win-aarch64.zip"@ && gecko_platform_label(version, os, Arch::Arm64) == "win-arm64"@,
        parsed_or_zero(minor_of(version)) > 31 && os is Linux ==> gecko_driver_label(
            parsed_or_zero(minor_of(version)),
            os,
            Arch::Arm64,
        ) == "linux-aarch64.tar.gz"@ && gecko_platform_label(version, os, Arch::Arm64)
            == "linux-arm64"@,
{
}

} // verus!

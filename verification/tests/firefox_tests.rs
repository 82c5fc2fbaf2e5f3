use selenium_manager::config::{Os, PlatformKey};
use selenium_manager::firefox::FirefoxManager;
use selenium_manager::metadata::new_metadata;
use selenium_manager::version::Channel;
use selenium_manager::{Error, VersionRequest};

#[test]
fn test_driver_url() {
    let mut firefox_manager = FirefoxManager::new().unwrap();

    let data = vec!(
        vec!("0.32.0", "linux", "x86", "https://github.com/mozilla/geckodriver/releases/download/v0.32.0/geckodriver-v0.32.0-linux32.tar.gz"),
        vec!("0.32.0", "linux", "x86_64", "https://github.com/mozilla/geckodriver/releases/download/v0.32.0/geckodriver-v0.32.0-linux64.tar.gz"),
        vec!("0.32.0", "linux", "aarch64", "https://github.com/mozilla/geckodriver/releases/download/v0.32.0/geckodriver-v0.32.0-linux-aarch64.tar.gz"),
        vec!("0.32.0", "windows", "x86", "https://github.com/mozilla/geckodriver/releases/download/v0.32.0/geckodriver-v0.32.0-win32.zip"),
        vec!("0.32.0", "windows", "x86_64", "https://github.com/mozilla/geckodriver/releases/download/v0.32.0/geckodriver-v0.32.0-win64.zip"),
        vec!("0.32.0", "windows", "aarch64", "https://github.com/mozilla/geckodriver/releases/download/v0.32.0/geckodriver-v0.32.0-win-aarch64.zip"),
        vec!("0.32.0", "macos", "x86", "https://github.com/mozilla/geckodriver/releases/download/v0.32.0/geckodriver-v0.32.0-macos.tar.gz"),
        vec!("0.32.0", "macos", "x86_64", "https://github.com/mozilla/geckodriver/releases/download/v0.32.0/geckodriver-v0.32.0-macos.tar.gz"),
        vec!("0.32.0", "macos", "aarch64", "https://github.com/mozilla/geckodriver/releases/download/v0.32.0/geckodriver-v0.32.0-macos-aarch64.tar.gz"),
        vec!("0.31.0", "linux", "x86", "https://github.com/mozilla/geckodriver/releases/download/v0.31.0/geckodriver-v0.31.0-linux32.tar.gz"),
        vec!("0.31.0", "linux", "x86_64", "https://github.com/mozilla/geckodriver/releases/download/v0.31.0/geckodriver-v0.31.0-linux64.tar.gz"),
        vec!("0.31.0", "linux", "aarch64", "https://github.com/mozilla/geckodriver/releases/download/v0.31.0/geckodriver-v0.31.0-linux64.tar.gz"),
        vec!("0.31.0", "windows", "x86", "https://github.com/mozilla/geckodriver/releases/download/v0.31.0/geckodriver-v0.31.0-win32.zip"),
        vec!("0.31.0", "windows", "x86_64", "https://github.com/mozilla/geckodriver/releases/download/v0.31.0/geckodriver-v0.31.0-win64.zip"),
        vec!("0.31.0", "windows", "aarch64", "https://github.com/mozilla/geckodriver/releases/download/v0.31.0/geckodriver-v0.31.0-win64.zip"),
        vec!("0.31.0", "macos", "x86", "https://github.com/mozilla/geckodriver/releases/download/v0.31.0/geckodriver-v0.31.0-macos.tar.gz"),
        vec!("0.31.0", "macos", "x86_64", "https://github.com/mozilla/geckodriver/releases/download/v0.31.0/geckodriver-v0.31.0-macos.tar.gz"),
        vec!("0.31.0", "macos", "aarch64", "https://github.com/mozilla/geckodriver/releases/download/v0.31.0/geckodriver-v0.31.0-macos-aarch64.tar.gz"),
    );

    data.iter().for_each(|d| {
        firefox_manager.set_driver_version(d.first().unwrap().to_string());
        firefox_manager.set_os(d.get(1).unwrap().to_string());
        firefox_manager.set_arch(d.get(2).unwrap().to_string());
        let driver_url = firefox_manager.get_driver_url().unwrap();
        assert_eq!(d.get(3).unwrap().to_string(), driver_url);
    });
}

#[test]
fn test_driver_url_deterministic() {
    let mut manager = FirefoxManager::new().unwrap();
    manager.set_driver_version("0.33.0".to_string());
    manager.set_os("windows".to_string());
    manager.set_arch("aarch64".to_string());
    let first = manager.get_driver_url().unwrap();
    let second = manager.get_driver_url().unwrap();
    assert_eq!(first, second);
}

#[test]
fn test_driver_url_without_minor_component() {
    let mut manager = FirefoxManager::new().unwrap();
    manager.set_driver_version("latest".to_string());
    let err = manager.get_driver_url().unwrap_err();
    assert!(matches!(err, Error::Unsupported));
}

#[test]
fn test_browser_url() {
    let mut manager = FirefoxManager::new().unwrap();
    manager.set_browser_version("117.0".to_string());
    manager.set_os("linux".to_string());
    manager.set_arch("x86_64".to_string());
    assert_eq!(
        manager.get_browser_url(),
        "https://ftp.mozilla.org/pub/firefox/releases/117.0/linux-x86_64/en-US/firefox-117.0.tar.bz2"
    );

    manager.set_os("windows".to_string());
    manager.set_arch("x86".to_string());
    assert_eq!(
        manager.get_browser_url(),
        "https://ftp.mozilla.org/pub/firefox/releases/117.0/win32/en-US/Firefox%20Setup%20117.0.exe"
    );

    manager.set_os("macos".to_string());
    manager.set_arch("aarch64".to_string());
    assert_eq!(
        manager.get_browser_url(),
        "https://ftp.mozilla.org/pub/firefox/releases/117.0/mac/en-US/Firefox%20117.0.pkg"
    );
}

#[test]
fn test_driver_path_in_cache() {
    let mut manager = FirefoxManager::new().unwrap();
    manager.set_cache_path("/home/user/.cache/selenium".to_string());
    manager.set_driver_version("0.33.0".to_string());
    manager.set_os("linux".to_string());
    manager.set_arch("x86_64".to_string());
    assert_eq!(
        manager.get_driver_path_in_cache(),
        "/home/user/.cache/selenium/geckodriver/linux64/0.33.0/geckodriver"
    );

    manager.set_os("windows".to_string());
    assert_eq!(
        manager.get_driver_path_in_cache(),
        "/home/user/.cache/selenium/geckodriver/win64/0.33.0/geckodriver.exe"
    );
}

#[test]
fn test_cache_path_determinism_and_injectivity() {
    let mut manager = FirefoxManager::new().unwrap();
    manager.set_cache_path("/cache".to_string());
    manager.set_os("linux".to_string());
    manager.set_arch("x86_64".to_string());
    manager.set_driver_version("0.32.0".to_string());
    let first = manager.get_driver_path_in_cache();
    let again = manager.get_driver_path_in_cache();
    assert_eq!(first, again);

    manager.set_driver_version("0.33.0".to_string());
    let other = manager.get_driver_path_in_cache();
    assert_ne!(first, other);
}

#[test]
fn test_platform_label_arm64_gate() {
    let mut manager = FirefoxManager::new().unwrap();
    manager.set_os("windows".to_string());
    manager.set_arch("aarch64".to_string());

    manager.set_driver_version("0.31.0".to_string());
    assert_eq!(manager.get_platform_label(), "win64");

    manager.set_driver_version("0.32.0".to_string());
    assert_eq!(manager.get_platform_label(), "win-arm64");

    manager.set_os("linux".to_string());
    manager.set_driver_version("0.31.0".to_string());
    assert_eq!(manager.get_platform_label(), "linux64");

    manager.set_driver_version("0.32.0".to_string());
    assert_eq!(manager.get_platform_label(), "linux-arm64");
}

#[test]
fn test_driver_resolution_cache_idempotence() {
    let mut manager = FirefoxManager::new().unwrap();
    manager.set_browser_version("121.0.1".to_string());
    let mut metadata = new_metadata();
    let now: u64 = 1_000;

    // First resolution misses the cache and is sent to the network.
    let step = manager.request_driver_version_start(&metadata, now).unwrap();
    let url = match step {
        VersionRequest::Fetch(url) => url,
        _ => panic!("expected a fetch decision"),
    };
    assert_eq!(url, "https://github.com/mozilla/geckodriver/releases/latest");

    let persist = manager.request_driver_version_finish(&mut metadata, "0.34.0".to_string(), now);
    assert!(persist);

    // Second resolution within the TTL window is answered from the cache.
    let step = manager.request_driver_version_start(&metadata, now + 100).unwrap();
    match step {
        VersionRequest::Cached(version) => assert_eq!(version, "0.34.0"),
        _ => panic!("expected a cache hit"),
    }
}

#[test]
fn test_driver_resolution_offline() {
    let mut manager = FirefoxManager::new().unwrap();
    manager.set_offline(true);
    let metadata = new_metadata();
    let err = manager.request_driver_version_start(&metadata, 0).unwrap_err();
    assert!(matches!(err, Error::Offline));
}

#[test]
fn test_driver_resolution_zero_ttl_never_caches() {
    let mut manager = FirefoxManager::new().unwrap();
    manager.set_browser_version("121.0.1".to_string());
    manager.set_ttl(0);
    let mut metadata = new_metadata();
    let persist = manager.request_driver_version_finish(&mut metadata, "0.34.0".to_string(), 50);
    assert!(!persist);

    let step = manager.request_driver_version_start(&metadata, 60).unwrap();
    assert!(matches!(step, VersionRequest::Fetch(_)));
}

#[test]
fn test_browser_resolution_pinned_version_unsupported() {
    let mut manager = FirefoxManager::new().unwrap();
    manager.set_browser_version("117.0.1".to_string());
    let metadata = new_metadata();
    let err = manager.download_browser_start(&metadata, 0).unwrap_err();
    assert!(matches!(err, Error::Unsupported));
}

#[test]
fn test_browser_resolution_stable_fetches_product_details() {
    let manager = FirefoxManager::new().unwrap();
    let metadata = new_metadata();
    let step = manager.download_browser_start(&metadata, 0).unwrap();
    match step {
        VersionRequest::Fetch(url) => {
            assert_eq!(url, "https://product-details.mozilla.org/1.0/firefox_versions.json")
        },
        _ => panic!("expected a fetch decision"),
    }
}

#[test]
fn test_browser_path_table() {
    let manager = FirefoxManager::new().unwrap();
    assert_eq!(
        manager.get_browser_path(PlatformKey { os: Os::Windows, channel: Channel::Dev }),
        Some("Firefox Developer Edition\\firefox.exe")
    );
    assert_eq!(
        manager.get_browser_path(PlatformKey { os: Os::Macos, channel: Channel::Stable }),
        Some("/Applications/Firefox.app/Contents/MacOS/firefox")
    );
    assert_eq!(
        manager.get_browser_path(PlatformKey { os: Os::Linux, channel: Channel::Nightly }),
        Some("/usr/bin/firefox-trunk")
    );
    assert_eq!(
        manager.get_browser_path(PlatformKey { os: Os::Linux, channel: Channel::Fixed }),
        None
    );
}

#[test]
fn test_discovery_command() {
    let manager = FirefoxManager::new().unwrap();
    let command = manager.discover_browser_version_command();
    assert_eq!(command.registry_key, "HKCU\\Software\\Mozilla\\Mozilla Firefox");
    assert_eq!(command.registry_value, "CurrentVersion");
    assert_eq!(command.version_flag, "-v");
}

#[test]
fn test_browser_binary_path_in_cache() {
    let mut manager = FirefoxManager::new().unwrap();
    manager.set_cache_path("/cache".to_string());
    manager.set_browser_version("117.0".to_string());
    manager.set_os("macos".to_string());
    manager.set_arch("aarch64".to_string());
    assert_eq!(
        manager.get_browser_binary_path_in_cache(),
        "/cache/firefox/mac-arm64/117.0/Firefox.app/Contents/MacOS/firefox"
    );

    manager.set_os("linux".to_string());
    manager.set_arch("x86_64".to_string());
    assert_eq!(
        manager.get_browser_binary_path_in_cache(),
        "/cache/firefox/linux64/117.0/firefox"
    );
}

use selenium_manager::edge::{edge_names, Artifact, EdgeManager, EdgeProduct, Release};
use selenium_manager::config::{Os, PlatformKey};
use selenium_manager::metadata::new_metadata;
use selenium_manager::version::Channel;
use selenium_manager::{Error, VersionRequest};

fn sample_release(platform: &str, architecture: &str, version: &str, artifacts: Vec<Artifact>) -> Release {
    Release {
        release_id: 1,
        platform: platform.to_string(),
        architecture: architecture.to_string(),
        cves: vec![],
        product_version: version.to_string(),
        artifacts,
        published_time: String::new(),
        expected_expiry_date: String::new(),
    }
}

fn sample_artifact(name: &str, location: &str) -> Artifact {
    Artifact {
        artifact_name: name.to_string(),
        location: location.to_string(),
        hash: String::new(),
        hash_algorithm: String::new(),
        size_in_bytes: 1,
    }
}

#[test]
fn test_edge_driver_url() {
    let mut manager = EdgeManager::new().unwrap();
    manager.set_driver_version("115.0.1901.183".to_string());

    manager.set_os("windows".to_string());
    manager.set_arch("x86_64".to_string());
    assert_eq!(
        manager.get_driver_url().unwrap(),
        "https://msedgedriver.azureedge.net/115.0.1901.183/edgedriver_win64.zip"
    );

    manager.set_arch("aarch64".to_string());
    assert_eq!(
        manager.get_driver_url().unwrap(),
        "https://msedgedriver.azureedge.net/115.0.1901.183/edgedriver_arm64.zip"
    );

    manager.set_os("macos".to_string());
    assert_eq!(
        manager.get_driver_url().unwrap(),
        "https://msedgedriver.azureedge.net/115.0.1901.183/edgedriver_mac64_m1.zip"
    );

    manager.set_os("linux".to_string());
    manager.set_arch("x86_64".to_string());
    assert_eq!(
        manager.get_driver_url().unwrap(),
        "https://msedgedriver.azureedge.net/115.0.1901.183/edgedriver_linux64.zip"
    );
}

#[test]
fn test_edge_driver_path_in_cache() {
    let mut manager = EdgeManager::new().unwrap();
    manager.set_cache_path("/cache".to_string());
    manager.set_driver_version("115.0.1901.183".to_string());
    manager.set_os("windows".to_string());
    manager.set_arch("aarch64".to_string());
    assert_eq!(
        manager.get_driver_path_in_cache(),
        "/cache/msedgedriver/win-arm64/115.0.1901.183/msedgedriver.exe"
    );
}

#[test]
fn test_edge_driver_resolution_pinned_version() {
    let mut manager = EdgeManager::new().unwrap();
    manager.set_browser_version("115.0.1901.183".to_string());
    manager.set_os("windows".to_string());
    let metadata = new_metadata();
    let step = manager.request_driver_version_start(&metadata, 0).unwrap();
    match step {
        VersionRequest::Fetch(url) => {
            assert_eq!(url, "https://msedgedriver.azureedge.net/LATEST_RELEASE_115_WINDOWS")
        },
        _ => panic!("expected a direct per-major fetch"),
    }
}

#[test]
fn test_edge_driver_resolution_stable_goes_to_latest_first() {
    let manager = EdgeManager::new().unwrap();
    let metadata = new_metadata();
    let step = manager.request_driver_version_start(&metadata, 0).unwrap();
    match step {
        VersionRequest::FetchLatestFirst(url) => {
            assert_eq!(url, "https://msedgedriver.azureedge.net/LATEST_STABLE")
        },
        _ => panic!("expected the latest-stable endpoint first"),
    }
}

#[test]
fn test_edge_driver_resolution_after_latest() {
    let mut manager = EdgeManager::new().unwrap();
    manager.set_os("linux".to_string());
    let (major, url) = manager.request_driver_version_after_latest("115.0.1901.183");
    assert_eq!(major, "115");
    assert_eq!(url, "https://msedgedriver.azureedge.net/LATEST_RELEASE_115_LINUX");
}

#[test]
fn test_edge_driver_resolution_offline() {
    let mut manager = EdgeManager::new().unwrap();
    manager.set_offline(true);
    let metadata = new_metadata();
    let err = manager.request_driver_version_start(&metadata, 0).unwrap_err();
    assert!(matches!(err, Error::Offline));
}

#[test]
fn test_edge_driver_resolution_cache_idempotence() {
    let mut manager = EdgeManager::new().unwrap();
    manager.set_browser_version("115.0.1901.183".to_string());
    let mut metadata = new_metadata();
    let now: u64 = 2_000;

    let step = manager.request_driver_version_start(&metadata, now).unwrap();
    assert!(matches!(step, VersionRequest::Fetch(_)));

    let persist = manager.request_driver_version_finish(
        &mut metadata,
        "115",
        "115.0.1901.183".to_string(),
        now,
    );
    assert!(persist);

    let step = manager.request_driver_version_start(&metadata, now + 1_000).unwrap();
    match step {
        VersionRequest::Cached(version) => assert_eq!(version, "115.0.1901.183"),
        _ => panic!("expected a cache hit"),
    }
}

#[test]
fn test_edge_select_release() {
    let mut manager = EdgeManager::new().unwrap();
    manager.set_os("windows".to_string());
    manager.set_arch("x86_64".to_string());

    let products = vec![
        EdgeProduct {
            product: "Beta".to_string(),
            releases: vec![sample_release(
                "Windows",
                "x64",
                "116.0.0.1",
                vec![sample_artifact("msi", "https://example.invalid/beta.msi")],
            )],
        },
        EdgeProduct {
            product: "Stable".to_string(),
            releases: vec![
                sample_release(
                    "MacOS",
                    "universal",
                    "115.0.1901.183",
                    vec![sample_artifact("pkg", "https://example.invalid/edge.pkg")],
                ),
                sample_release(
                    "Windows",
                    "x64",
                    "115.0.1901.183",
                    vec![
                        sample_artifact("exe", "https://example.invalid/edge.exe"),
                        sample_artifact("msi", "https://example.invalid/edge.msi"),
                    ],
                ),
            ],
        },
    ];

    let selection = manager.select_release(&products).unwrap();
    assert_eq!(selection.version, "115.0.1901.183");
    assert_eq!(selection.url, "https://example.invalid/edge.msi");
}

#[test]
fn test_edge_select_release_nothing_matches() {
    let mut manager = EdgeManager::new().unwrap();
    manager.set_os("linux".to_string());
    manager.set_arch("x86_64".to_string());

    let products = vec![EdgeProduct {
        product: "Stable".to_string(),
        releases: vec![sample_release(
            "Windows",
            "x64",
            "115.0.1901.183",
            vec![sample_artifact("msi", "https://example.invalid/edge.msi")],
        )],
    }];

    let err = manager.select_release(&products).unwrap_err();
    assert!(matches!(err, Error::RemoteResolutionFailed { .. }));

    let err = manager.select_release(&vec![]).unwrap_err();
    assert!(matches!(err, Error::RemoteResolutionFailed { .. }));
}

#[test]
fn test_edge_browser_feed_url() {
    let mut manager = EdgeManager::new().unwrap();
    let metadata = new_metadata();

    // Unconstrained request: the plain product feed.
    let step = manager.download_browser_start(&metadata, 0).unwrap();
    match step {
        VersionRequest::Fetch(url) => {
            assert_eq!(url, "https://edgeupdates.microsoft.com/api/products")
        },
        _ => panic!("expected a fetch decision"),
    }

    // Pinned request: the enterprise view.
    manager.set_browser_version("115.0.1901.183".to_string());
    let step = manager.download_browser_start(&metadata, 0).unwrap();
    match step {
        VersionRequest::Fetch(url) => {
            assert_eq!(url, "https://edgeupdates.microsoft.com/api/products?view=enterprise")
        },
        _ => panic!("expected a fetch decision"),
    }

    // Unstable request: the plain product feed again.
    manager.set_browser_version("beta".to_string());
    let step = manager.download_browser_start(&metadata, 0).unwrap();
    match step {
        VersionRequest::Fetch(url) => {
            assert_eq!(url, "https://edgeupdates.microsoft.com/api/products")
        },
        _ => panic!("expected a fetch decision"),
    }
}

#[test]
fn test_edge_browser_binary_path_per_channel() {
    let mut manager = EdgeManager::new().unwrap();
    manager.set_cache_path("/cache".to_string());
    manager.set_os("macos".to_string());
    manager.set_arch("aarch64".to_string());

    manager.set_browser_version("beta".to_string());
    assert_eq!(
        manager.get_browser_binary_path_in_cache(),
        "/cache/edge/mac-arm64/beta/Microsoft Edge Beta.app/Contents/MacOS/Microsoft Edge Beta"
    );

    manager.set_browser_version(String::new());
    assert_eq!(
        manager.get_browser_binary_path_in_cache(),
        "/cache/edge/mac-arm64//Microsoft Edge.app/Contents/MacOS/Microsoft Edge"
    );
}

#[test]
fn test_edge_browser_path_table() {
    let manager = EdgeManager::new().unwrap();
    assert_eq!(
        manager.get_browser_path(PlatformKey { os: Os::Windows, channel: Channel::Nightly }),
        Some("Microsoft\\Edge SxS\\Application\\msedge.exe")
    );
    assert_eq!(
        manager.get_browser_path(PlatformKey { os: Os::Linux, channel: Channel::Beta }),
        Some("/usr/bin/microsoft-edge-beta")
    );
    // The vendor ships no nightly channel for Linux: the table has no entry.
    assert_eq!(
        manager.get_browser_path(PlatformKey { os: Os::Linux, channel: Channel::Nightly }),
        None
    );
}

#[test]
fn test_edge_discovery_command() {
    let manager = EdgeManager::new().unwrap();
    let command = manager.discover_browser_version_command();
    assert_eq!(command.registry_key, "HKCU\\Software\\Microsoft\\Edge\\BLBeacon");
    assert_eq!(command.registry_value, "version");
    assert_eq!(command.version_flag, "--version");
}

#[test]
fn test_edge_names() {
    assert_eq!(edge_names(), vec!["edge", "msedge", "microsoftedge"]);
}

#[test]
fn test_edge_config_mut() {
    let mut manager = EdgeManager::new().unwrap();
    manager.get_config_mut().ttl = 7;
    assert_eq!(manager.get_config().ttl, 7);
}

#[test]
fn test_edge_browser_url_field() {
    let mut manager = EdgeManager::new().unwrap();
    assert_eq!(manager.get_browser_url(), "");
    manager.set_browser_url("https://example.invalid/edge.msi".to_string());
    assert_eq!(manager.get_browser_url(), "https://example.invalid/edge.msi");
}

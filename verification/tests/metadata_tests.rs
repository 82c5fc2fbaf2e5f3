use selenium_manager::metadata::{
    create_browser_metadata, create_driver_metadata, get_browser_version_from_metadata,
    get_driver_version_from_metadata, new_metadata, record_driver_resolution,
};
use selenium_manager::strutil::parse_or_zero;

#[test]
fn test_ttl_boundary() {
    let now: u64 = 1_000;
    // An entry expiring exactly at `now` (TTL elapsed) is a miss.
    let expired = vec![create_driver_metadata("121", "geckodriver", "0.34.0", 0, now)];
    assert_eq!(get_driver_version_from_metadata(&expired, "geckodriver", "121", now), None);

    // An entry expiring strictly in the future is a hit.
    let valid = vec![create_driver_metadata("121", "geckodriver", "0.34.0", 1, now)];
    assert_eq!(
        get_driver_version_from_metadata(&valid, "geckodriver", "121", now),
        Some("0.34.0".to_string())
    );

    // An entry whose expiry lies in the past is a miss.
    let stale = vec![create_driver_metadata("121", "geckodriver", "0.34.0", 10, now)];
    assert_eq!(get_driver_version_from_metadata(&stale, "geckodriver", "121", now + 10), None);
}

#[test]
fn test_find_ignores_non_matching_keys() {
    let now: u64 = 50;
    let entries = vec![
        create_driver_metadata("120", "geckodriver", "0.33.0", 100, now),
        create_driver_metadata("121", "msedgedriver", "121.0.1", 100, now),
    ];
    assert_eq!(get_driver_version_from_metadata(&entries, "geckodriver", "121", now), None);
    assert_eq!(
        get_driver_version_from_metadata(&entries, "geckodriver", "120", now),
        Some("0.33.0".to_string())
    );
}

#[test]
fn test_find_first_of_duplicate_keys_wins() {
    let now: u64 = 50;
    let entries = vec![
        create_driver_metadata("121", "geckodriver", "0.33.0", 100, now),
        create_driver_metadata("121", "geckodriver", "0.34.0", 100, now),
    ];
    assert_eq!(
        get_driver_version_from_metadata(&entries, "geckodriver", "121", now),
        Some("0.33.0".to_string())
    );

    // An expired duplicate in front is skipped, not merged.
    let entries = vec![
        create_driver_metadata("121", "geckodriver", "0.33.0", 0, now),
        create_driver_metadata("121", "geckodriver", "0.34.0", 100, now),
    ];
    assert_eq!(
        get_driver_version_from_metadata(&entries, "geckodriver", "121", now),
        Some("0.34.0".to_string())
    );
}

#[test]
fn test_browser_entries_are_searched_apart() {
    let now: u64 = 10;
    let browsers = vec![create_browser_metadata("firefox", "121", "121.0.1", 60, now)];
    assert_eq!(
        get_browser_version_from_metadata(&browsers, "firefox", "121", now),
        Some("121.0.1".to_string())
    );
    assert_eq!(get_browser_version_from_metadata(&browsers, "edge", "121", now), None);
}

#[test]
fn test_record_driver_resolution_guards() {
    let now: u64 = 100;

    // A positive TTL and a known major version append one entry.
    let mut metadata = new_metadata();
    assert!(record_driver_resolution(&mut metadata, "geckodriver", "121", "0.34.0", 900, now));
    assert_eq!(metadata.drivers.len(), 1);
    assert_eq!(metadata.drivers[0].expires_at, 1_000);
    assert_eq!(metadata.browsers.len(), 0);

    // A zero TTL disables caching.
    let mut metadata = new_metadata();
    assert!(!record_driver_resolution(&mut metadata, "geckodriver", "121", "0.34.0", 0, now));
    assert_eq!(metadata.drivers.len(), 0);

    // An unknown subject major version is never cached.
    let mut metadata = new_metadata();
    assert!(!record_driver_resolution(&mut metadata, "geckodriver", "", "0.34.0", 900, now));
    assert_eq!(metadata.drivers.len(), 0);
}

#[test]
fn test_parse_or_zero() {
    assert_eq!(parse_or_zero("32"), 32);
    assert_eq!(parse_or_zero("0"), 0);
    assert_eq!(parse_or_zero("2147483647"), 2147483647);
    // Anything that is not a plain in-range decimal numeral reads as zero.
    assert_eq!(parse_or_zero(""), 0);
    assert_eq!(parse_or_zero("2147483648"), 0);
    assert_eq!(parse_or_zero("12a"), 0);
    assert_eq!(parse_or_zero("-5"), 0);
}

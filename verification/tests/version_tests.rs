use selenium_manager::config::{parse_arch, parse_os, Arch, Os};
use selenium_manager::version::{classify, major_version, minor_version, Channel};

#[test]
fn test_os_normalization() {
    assert_eq!(parse_os("windows"), Os::Windows);
    assert_eq!(parse_os("WIN"), Os::Windows);
    assert_eq!(parse_os("macos"), Os::Macos);
    assert_eq!(parse_os("Darwin"), Os::Macos);
    assert_eq!(parse_os("linux"), Os::Linux);
    // Anything unrecognized falls back to the Linux branch.
    assert_eq!(parse_os("freebsd"), Os::Linux);
}

#[test]
fn test_arch_normalization() {
    assert_eq!(parse_arch("x86"), Arch::X32);
    assert_eq!(parse_arch("i686"), Arch::X32);
    assert_eq!(parse_arch("aarch64"), Arch::Arm64);
    assert_eq!(parse_arch("ARM64"), Arch::Arm64);
    assert_eq!(parse_arch("x86_64"), Arch::X64);
    // Anything unrecognized falls back to x86-64.
    assert_eq!(parse_arch("mips"), Arch::X64);
}

#[test]
fn test_major_version() {
    assert_eq!(major_version("121.0.6167.85"), "121");
    assert_eq!(major_version("0.32.0"), "0");
    assert_eq!(major_version("121"), "121");
    assert_eq!(major_version(""), "");
    assert_eq!(major_version(".5"), "");
}

#[test]
fn test_minor_version() {
    assert_eq!(minor_version("0.32.0"), Some("32".to_string()));
    assert_eq!(minor_version("121.0.6167.85"), Some("0".to_string()));
    assert_eq!(minor_version("121.7"), Some("7".to_string()));
    assert_eq!(minor_version("121."), Some("".to_string()));
    assert_eq!(minor_version("121"), None);
    assert_eq!(minor_version(""), None);
}

#[test]
fn test_channel_classification_is_total() {
    // Every request string maps to exactly one of the five channels.
    assert_eq!(classify(""), Channel::Stable);
    assert_eq!(classify("stable"), Channel::Stable);
    assert_eq!(classify("Stable"), Channel::Stable);
    assert_eq!(classify("beta"), Channel::Beta);
    assert_eq!(classify("BETA"), Channel::Beta);
    assert_eq!(classify("dev"), Channel::Dev);
    assert_eq!(classify("nightly"), Channel::Nightly);
    assert_eq!(classify("canary"), Channel::Nightly);
    assert_eq!(classify("117.0.1"), Channel::Fixed);
    assert_eq!(classify("anything-else"), Channel::Fixed);
}

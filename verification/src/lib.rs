//! Resolution and provisioning engine for browser automation drivers.
//!
//! The library locates a driver binary compatible with an installed browser:
//! it classifies the requested version into a release channel, consults a
//! TTL-bounded metadata cache before any network round trip, synthesizes the
//! vendor-, platform- and architecture-specific download URL, and computes
//! the deterministic cache path where the artifact is materialized.
//!
//! All network, file-system and process I/O is performed by the surrounding
//! application; the library states and proves the protocol logic itself.

use vstd::prelude::*;

pub mod config;
pub mod edge;
pub mod files;
pub mod firefox;
pub mod metadata;
pub mod strutil;
pub mod version;

verus! {

/// The closed error taxonomy of the engine.
///
/// - `Offline`: a remote call was required but the run is offline.
/// - `RemoteResolutionFailed`: a vendor endpoint yielded no usable answer
///   (unreachable, malformed, or no entry matched the applied filters).
/// - `NotFound`: a requested artifact is absent where one was expected.
/// - `CacheIoDegraded`: the metadata cache could not be read or written;
///   callers degrade to an empty cache rather than failing resolution.
/// - `Unsupported`: the vendor does not implement the requested path
///   (for example pinning an exact browser version), or a version string is
///   not in the form the vendor's URL scheme requires; distinguishable from
///   any network failure.
#[derive(Debug)]
pub enum Error {
    Offline,
    RemoteResolutionFailed { vendor: String, detail: String },
    NotFound,
    CacheIoDegraded,
    Unsupported,
}

/// The decision a manager hands back from the first step of a resolution:
/// either the version was answered from a valid cache entry and no network
/// call follows, or the application must fetch one URL and hand the answer
/// to the matching finish step. Some vendors cannot pin an unstable or
/// unconstrained request to a feed keyed by major version; they first fetch
/// their generic latest-version URL and re-derive the subject major version
/// from its answer.
#[derive(Debug)]
pub enum VersionRequest {
    Cached(String),
    Fetch(String),
    FetchLatestFirst(String),
}

} // verus!

//! TTL-bounded memoization of resolution results.
//!
//! The metadata document holds two ordered lists of entries, one for
//! browsers and one for drivers, each keyed by (name, subject major
//! version). A lookup returns the first entry whose key matches and whose
//! expiry lies strictly in the future; expired or non-matching entries are
//! ignored, never removed. Reading and writing the on-disk document is the
//! surrounding application's task: it hands the loaded document in and
//! persists the document handed back, falling back to an empty document
//! whenever the file is absent or malformed.

use vstd::prelude::*;

use crate::strutil::str_eq;

verus! {

/// One memoized driver resolution: for the browser major version
/// `subject_major_version`, the driver called `name` resolved to
/// `resolved_version`, trustworthy until `expires_at`.
pub struct DriverCacheEntry {
    pub subject_major_version: String,
    pub name: String,
    pub resolved_version: String,
    pub expires_at: u64,
}

/// One memoized browser resolution, shaped like [`DriverCacheEntry`].
pub struct BrowserCacheEntry {
    pub subject_major_version: String,
    pub name: String,
    pub resolved_version: String,
    pub expires_at: u64,
}

/// The persisted cache document.
pub struct Metadata {
    pub browsers: Vec<BrowserCacheEntry>,
    pub drivers: Vec<DriverCacheEntry>,
}

/// Whether a driver entry answers a lookup for `(name, major)` at time
/// `now`: both key fields match and the expiry is strictly in the future.
pub open spec fn driver_entry_matches(
    e: DriverCacheEntry,
    name: Seq<char>,
    major: Seq<char>,
    now: u64,
) -> bool {
    e.name@ == name && e.subject_major_version@ == major && e.expires_at > now
}

/// Whether a browser entry answers a lookup for `(name, major)` at `now`.
pub open spec fn browser_entry_matches(
    e: BrowserCacheEntry,
    name: Seq<char>,
    major: Seq<char>,
    now: u64,
) -> bool {
    e.name@ == name && e.subject_major_version@ == major && e.expires_at > now
}

/// The resolved version of the first driver entry matching `(name, major)`
/// at `now`, or `None` when no entry matches.
pub open spec fn found_driver_version(
    es: Seq<DriverCacheEntry>,
    name: Seq<char>,
    major: Seq<char>,
    now: u64,
) -> Option<Seq<char>>
    decreases es.len(),
{
    if es.len() == 0 {
        None
    } else if driver_entry_matches(es[0], name, major, now) {
        Some(es[0].resolved_version@)
    } else {
        found_driver_version(es.skip(1), name, major, now)
    }
}

/// The resolved version of the first browser entry matching `(name, major)`
/// at `now`, or `None` when no entry matches.
pub open spec fn found_browser_version(
    es: Seq<BrowserCacheEntry>,
    name: Seq<char>,
    major: Seq<char>,
    now: u64,
) -> Option<Seq<char>>
    decreases es.len(),
{
    if es.len() == 0 {
        None
    } else if browser_entry_matches(es[0], name, major, now) {
        Some(es[0].resolved_version@)
    } else {
        found_browser_version(es.skip(1), name, major, now)
    }
}

/// An empty metadata document, standing in for an absent or unreadable
/// cache file.
pub fn new_metadata() -> (m: Metadata)
    ensures
        m.browsers@.len() == 0,
        m.drivers@.len() == 0,
{
    Metadata { browsers: Vec::new(), drivers: Vec::new() }
}

/// The lookup yields the entry at `i` when `i` is the first match.
pub proof fn lemma_found_driver_at(
    es: Seq<DriverCacheEntry>,
    name: Seq<char>,
    major: Seq<char>,
    now: u64,
    i: int,
)
    requires
        0 <= i < es.len(),
        driver_entry_matches(es[i], name, major, now),
        forall|j: int| 0 <= j < i ==> !driver_entry_matches(es[j], name, major, now),
    ensures
        found_driver_version(es, name, major, now) == Some(es[i].resolved_version@),
    decreases i,
{
    if i > 0 {
        assert(es.skip(1)[i - 1] == es[i]);
        assert forall|j: int| 0 <= j < i - 1 implies !driver_entry_matches(
            #[trigger] es.skip(1)[j],
            name,
            major,
            now,
        ) by {
            assert(es.skip(1)[j] == es[j + 1]);
        }
        lemma_found_driver_at(es.skip(1), name, major, now, i - 1);
    }
}

/// The lookup misses exactly when no entry matches.
pub proof fn lemma_found_driver_none(
    es: Seq<DriverCacheEntry>,
    name: Seq<char>,
    major: Seq<char>,
    now: u64,
)
    ensures
        found_driver_version(es, name, major, now) is None <==> (forall|j: int|
            0 <= j < es.len() ==> !driver_entry_matches(es[j], name, major, now)),
    decreases es.len(),
{
    if es.len() > 0 {
        lemma_found_driver_none(es.skip(1), name, major, now);
        if found_driver_version(es, name, major, now) is None {
            assert forall|j: int| 0 <= j < es.len() implies !driver_entry_matches(
                #[trigger] es[j],
                name,
                major,
                now,
            ) by {
                if j > 0 {
                    assert(es.skip(1)[j - 1] == es[j]);
                }
            }
        } else {
            if !driver_entry_matches(es[0], name, major, now) {
                let k = choose|k: int|
                    0 <= k < es.skip(1).len() && driver_entry_matches(
                        es.skip(1)[k],
                        name,
                        major,
                        now,
                    );
                assert(es.skip(1)[k] == es[k + 1]);
            }
        }
    }
}

/// The mirror of [`lemma_found_driver_at`] for browser entries.
pub proof fn lemma_found_browser_at(
    es: Seq<BrowserCacheEntry>,
    name: Seq<char>,
    major: Seq<char>,
    now: u64,
    i: int,
)
    requires
        0 <= i < es.len(),
        browser_entry_matches(es[i], name, major, now),
        forall|j: int| 0 <= j < i ==> !browser_entry_matches(es[j], name, major, now),
    ensures
        found_browser_version(es, name, major, now) == Some(es[i].resolved_version@),
    decreases i,
{
    if i > 0 {
        assert(es.skip(1)[i - 1] == es[i]);
        assert forall|j: int| 0 <= j < i - 1 implies !browser_entry_matches(
            #[trigger] es.skip(1)[j],
            name,
            major,
            now,
        ) by {
            assert(es.skip(1)[j] == es[j + 1]);
        }
        lemma_found_browser_at(es.skip(1), name, major, now, i - 1);
    }
}

/// The mirror of [`lemma_found_driver_none`] for browser entries.
pub proof fn lemma_found_browser_none(
    es: Seq<BrowserCacheEntry>,
    name: Seq<char>,
    major: Seq<char>,
    now: u64,
)
    ensures
        found_browser_version(es, name, major, now) is None <==> (forall|j: int|
            0 <= j < es.len() ==> !browser_entry_matches(es[j], name, major, now)),
    decreases es.len(),
{
    if es.len() > 0 {
        lemma_found_browser_none(es.skip(1), name, major, now);
        if found_browser_version(es, name, major, now) is None {
            assert forall|j: int| 0 <= j < es.len() implies !browser_entry_matches(
                #[trigger] es[j],
                name,
                major,
                now,
            ) by {
                if j > 0 {
                    assert(es.skip(1)[j - 1] == es[j]);
                }
            }
        } else {
            if !browser_entry_matches(es[0], name, major, now) {
                let k = choose|k: int|
                    0 <= k < es.skip(1).len() && browser_entry_matches(
                        es.skip(1)[k],
                        name,
                        major,
                        now,
                    );
                assert(es.skip(1)[k] == es[k + 1]);
            }
        }
    }
}

/// Linear search for the first valid driver entry for `(driver_name,
/// major)` at time `now`.
pub fn get_driver_version_from_metadata(
    drivers: &Vec<DriverCacheEntry>,
    driver_name: &str,
    major: &str,
    now: u64,
) -> (r: Option<String>)
    ensures
        r is Some <==> found_driver_version(drivers@, driver_name@, major@, now) is Some,
        r is Some ==> r->0@ == found_driver_version(drivers@, driver_name@, major@, now)->0,
{
    let n: usize = drivers.len();
    let mut i: usize = 0;
    while i < n
        invariant
            n == drivers@.len(),
            0 <= i <= n,
            forall|j: int| 0 <= j < i ==> !driver_entry_matches(drivers@[j], driver_name@, major@, now),
        decreases n - i,
    {
        let e = &drivers[i];
        if e.expires_at > now && str_eq(e.name.as_str(), driver_name) && str_eq(
            e.subject_major_version.as_str(),
            major,
        ) {
            proof {
                lemma_found_driver_at(drivers@, driver_name@, major@, now, i as int);
            }
            return Some(e.resolved_version.clone());
        }
        i = i + 1;
    }
    proof {
        lemma_found_driver_none(drivers@, driver_name@, major@, now);
    }
    None
}

/// Linear search for the first valid browser entry for `(browser_name,
/// major)` at time `now`.
pub fn get_browser_version_from_metadata(
    browsers: &Vec<BrowserCacheEntry>,
    browser_name: &str,
    major: &str,
    now: u64,
) -> (r: Option<String>)
    ensures
        r is Some <==> found_browser_version(browsers@, browser_name@, major@, now) is Some,
        r is Some ==> r->0@ == found_browser_version(browsers@, browser_name@, major@, now)->0,
{
    let n: usize = browsers.len();
    let mut i: usize = 0;
    while i < n
        invariant
            n == browsers@.len(),
            0 <= i <= n,
            forall|j: int|
                0 <= j < i ==> !browser_entry_matches(browsers@[j], browser_name@, major@, now),
        decreases n - i,
    {
        let e = &browsers[i];
        if e.expires_at > now && str_eq(e.name.as_str(), browser_name) && str_eq(
            e.subject_major_version.as_str(),
            major,
        ) {
            proof {
                lemma_found_browser_at(browsers@, browser_name@, major@, now, i as int);
            }
            return Some(e.resolved_version.clone());
        }
        i = i + 1;
    }
    proof {
        lemma_found_browser_none(browsers@, browser_name@, major@, now);
    }
    None
}

/// Builds a driver cache entry expiring `ttl` seconds after `now`.
pub fn create_driver_metadata(
    major: &str,
    driver_name: &str,
    driver_version: &str,
    ttl: u64,
    now: u64,
) -> (e: DriverCacheEntry)
    requires
        now + ttl <= u64::MAX,
    ensures
        e.subject_major_version@ == major@,
        e.name@ == driver_name@,
        e.resolved_version@ == driver_version@,
        e.expires_at == now + ttl,
{
    DriverCacheEntry {
        subject_major_version: major.to_owned(),
        name: driver_name.to_owned(),
        resolved_version: driver_version.to_owned(),
        expires_at: now + ttl,
    }
}

/// Builds a browser cache entry expiring `ttl` seconds after `now`.
pub fn create_browser_metadata(
    browser_name: &str,
    major: &str,
    browser_version: &str,
    ttl: u64,
    now: u64,
) -> (e: BrowserCacheEntry)
    requires
        now + ttl <= u64::MAX,
    ensures
        e.subject_major_version@ == major@,
        e.name@ == browser_name@,
        e.resolved_version@ == browser_version@,
        e.expires_at == now + ttl,
{
    BrowserCacheEntry {
        subject_major_version: major.to_owned(),
        name: browser_name.to_owned(),
        resolved_version: browser_version.to_owned(),
        expires_at: now + ttl,
    }
}

/// TTL boundary: among entries with the right key, one whose expiry equals
/// `now` or lies in the past is a miss; one whose expiry lies strictly in
/// the future is a hit.
pub proof fn lemma_ttl_boundary(e: DriverCacheEntry, name: Seq<char>, major: Seq<char>, now: u64)
    requires
        e.name@ == name,
        e.subject_major_version@ == major,
    ensures
        e.expires_at <= now ==> found_driver_version(seq![e], name, major, now) is None,
        e.expires_at > now ==> found_driver_version(seq![e], name, major, now) == Some(
            e.resolved_version@,
        ),
{
    assert(seq![e][0] == e);
    assert(seq![e].skip(1).len() == 0);
    assert(found_driver_version(seq![e].skip(1), name, major, now) is None);
}

/// Cache idempotence: after a lookup missed at `now` and the freshly
/// resolved version was appended with an expiry still in the future at
/// `later`, the lookup at `later` hits that entry, so the second resolution
/// makes no network call.
pub proof fn lemma_cache_idempotent(
    es: Seq<DriverCacheEntry>,
    e: DriverCacheEntry,
    name: Seq<char>,
    major: Seq<char>,
    now: u64,
    later: u64,
)
    requires
        found_driver_version(es, name, major, now) is None,
        e.name@ == name,
        e.subject_major_version@ == major,
        now <= later < e.expires_at,
    ensures
        found_driver_version(es.push(e), name, major, later) == Some(e.resolved_version@),
{
    lemma_found_driver_none(es, name, major, now);
    assert forall|j: int| 0 <= j < es.len() implies !driver_entry_matches(
        #[trigger] es.push(e)[j],
        name,
        major,
        later,
    ) by {
        assert(es.push(e)[j] == es[j]);
        assert(!driver_entry_matches(es[j], name, major, now));
    }
    assert(es.push(e)[es.len() as int] == e);
    lemma_found_driver_at(es.push(e), name, major, later, es.len() as int);
}

/// Appends a freshly resolved driver version to the document when the TTL
/// is positive and the subject major version is known; reports whether the
/// document changed and so must be persisted. A TTL of zero disables
/// caching entirely.
pub fn record_driver_resolution(
    metadata: &mut Metadata,
    driver_name: &str,
    major: &str,
    driver_version: &str,
    ttl: u64,
    now: u64,
) -> (persist: bool)
    requires
        now + ttl <= u64::MAX,
    ensures
        persist == (ttl > 0 && major@.len() > 0),
        final(metadata).browsers@ == old(metadata).browsers@,
        !persist ==> final(metadata).drivers@ == old(metadata).drivers@,
        persist ==> final(metadata).drivers@ == old(metadata).drivers@.push(
            final(metadata).drivers@.last(),
        ) && {
            let e = final(metadata).drivers@.last();
            e.name@ == driver_name@ && e.subject_major_version@ == major@ && e.resolved_version@
                == driver_version@ && e.expires_at == now + ttl
        },
{
    if ttl > 0 && !major.is_empty() {
        let e = create_driver_metadata(major, driver_name, driver_version, ttl, now);
        metadata.drivers.push(e);
        true
    } else {
        false
    }
}

/// Appends a freshly resolved browser version when the TTL is positive and
/// the resolved version is a concrete one (neither empty nor the stable
/// marker); reports whether the document must be persisted.
pub fn record_browser_resolution(
    metadata: &mut Metadata,
    browser_name: &str,
    major: &str,
    browser_version: &str,
    ttl: u64,
    now: u64,
) -> (persist: bool)
    requires
        now + ttl <= u64::MAX,
    ensures
        persist == (ttl > 0 && browser_version@.len() > 0 && !crate::strutil::eq_ignore_case(
            browser_version@,
            "stable"@,
        )),
        final(metadata).drivers@ == old(metadata).drivers@,
        !persist ==> final(metadata).browsers@ == old(metadata).browsers@,
        persist ==> final(metadata).browsers@ == old(metadata).browsers@.push(
            final(metadata).browsers@.last(),
        ) && {
            let e = final(metadata).browsers@.last();
            e.name@ == browser_name@ && e.subject_major_version@ == major@ && e.resolved_version@
                == browser_version@ && e.expires_at == now + ttl
        },
{
    if ttl > 0 && !browser_version.is_empty() && !crate::strutil::str_eq_ignore_ascii_case(
        browser_version,
        "stable",
    ) {
        let e = create_browser_metadata(browser_name, major, browser_version, ttl, now);
        metadata.browsers.push(e);
        true
    } else {
        false
    }
}

} // verus!

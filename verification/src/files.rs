//! Deterministic cache paths for materialized artifacts.
//!
//! Artifacts live in a directory tree keyed as
//! `<cache-root>/<name>/<platform-label>/<version>/...`. Paths are composed
//! here as strings with `/` separators; the surrounding application turns
//! them into native paths. Composition is a pure function of its inputs, and
//! two different versions can never collide on one path.

use vstd::prelude::*;
use vstd::string::StringExecFns;

use crate::config::Os;

verus! {

/// The file name of a driver or browser binary: the bare name, with `.exe`
/// appended on Windows.
pub open spec fn binary_file_name(name: Seq<char>, os: Os) -> Seq<char> {
    if os is Windows {
        name + ".exe"@
    } else {
        name
    }
}

/// Appends the platform's executable extension to a binary name.
pub fn compose_binary_file_name(name: &str, os: Os) -> (r: String)
    ensures
        r@ == binary_file_name(name@, os),
{
    let mut out = String::new();
    out.append(name);
    if let Os::Windows = os {
        out.append(".exe");
    }
    proof {
        assert(out@ =~= binary_file_name(name@, os));
    }
    out
}

/// The cache path of a driver binary:
/// `<cache-root>/<driver-name>/<platform-label>/<version>/<binary>`.
pub open spec fn driver_path_in_cache(
    cache: Seq<char>,
    name: Seq<char>,
    label: Seq<char>,
    version: Seq<char>,
    os: Os,
) -> Seq<char> {
    cache + "/"@ + name + "/"@ + label + "/"@ + version + "/"@ + binary_file_name(name, os)
}

/// The cache directory of a browser artifact:
/// `<cache-root>/<browser-name>/<platform-label>/<version>`.
pub open spec fn browser_path_in_cache(
    cache: Seq<char>,
    name: Seq<char>,
    label: Seq<char>,
    version: Seq<char>,
) -> Seq<char> {
    cache + "/"@ + name + "/"@ + label + "/"@ + version
}

/// Composes the deterministic cache path of a driver binary.
pub fn compose_driver_path_in_cache(
    cache: &str,
    driver_name: &str,
    label: &str,
    driver_version: &str,
    os: Os,
) -> (r: String)
    ensures
        r@ == driver_path_in_cache(cache@, driver_name@, label@, driver_version@, os),
{
    let mut out = String::new();
    out.append(cache);
    out.append("/");
    out.append(driver_name);
    out.append("/");
    out.append(label);
    out.append("/");
    out.append(driver_version);
    out.append("/");
    let file = compose_binary_file_name(driver_name, os);
    out.append(file.as_str());
    proof {
        assert(out@ =~= driver_path_in_cache(cache@, driver_name@, label@, driver_version@, os));
    }
    out
}

/// Composes the deterministic cache directory of a browser artifact.
pub fn compose_browser_path_in_cache(
    cache: &str,
    browser_name: &str,
    label: &str,
    browser_version: &str,
) -> (r: String)
    ensures
        r@ == browser_path_in_cache(cache@, browser_name@, label@, browser_version@),
{
    let mut out = String::new();
    out.append(cache);
    out.append("/");
    out.append(browser_name);
    out.append("/");
    out.append(label);
    out.append("/");
    out.append(browser_version);
    proof {
        assert(out@ =~= browser_path_in_cache(cache@, browser_name@, label@, browser_version@));
    }
    out
}

/// Cache-path determinism: the driver cache path is a pure function of its
/// inputs, so two computations over identical inputs yield identical paths.
pub proof fn lemma_driver_cache_path_deterministic(
    r1: Seq<char>,
    r2: Seq<char>,
    cache: Seq<char>,
    name: Seq<char>,
    label: Seq<char>,
    version: Seq<char>,
    os: Os,
)
    requires
        r1 == driver_path_in_cache(cache, name, label, version, os),
        r2 == driver_path_in_cache(cache, name, label, version, os),
    ensures
        r1 == r2,
{
}

/// Cache-path injectivity: with the root, the driver name and the platform
/// label fixed, two different versions never collide on the same path.
pub proof fn lemma_driver_cache_path_injective(
    cache: Seq<char>,
    name: Seq<char>,
    label: Seq<char>,
    v1: Seq<char>,
    v2: Seq<char>,
    os: Os,
)
    requires
        driver_path_in_cache(cache, name, label, v1, os) == driver_path_in_cache(
            cache,
            name,
            label,
            v2,
            os,
        ),
    ensures
        v1 == v2,
{
    reveal_strlit("/");
    let p1 = driver_path_in_cache(cache, name, label, v1, os);
    let p2 = driver_path_in_cache(cache, name, label, v2, os);
    let head = cache + "/"@ + name + "/"@ + label + "/"@;
    assert(p1.len() == head.len() + v1.len() + 1 + binary_file_name(name, os).len());
    assert(p2.len() == head.len() + v2.len() + 1 + binary_file_name(name, os).len());
    assert(v1.len() == v2.len());
    assert forall|i: int| 0 <= i < v1.len() implies v1[i] == v2[i] by {
        assert(p1[head.len() + i] == v1[i]);
        assert(p2[head.len() + i] == v2[i]);
    }
    assert(v1 =~= v2);
}

} // verus!

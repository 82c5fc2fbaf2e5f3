//! Dotted version strings and release-channel classification.
//!
//! A version is a dotted numeric string. Its major component is the text
//! before the first separator; its minor component is the text between the
//! first and second separator. Only the numeric value of single components
//! is ever compared, never a full semantic-version order.

use vstd::prelude::*;
use vstd::string::StrSliceExecFns;

use crate::strutil::{char_index, eq_ignore_case, lemma_char_index, find_char, str_eq_ignore_ascii_case};

verus! {

/// The major component of a version: everything before the first `.`,
/// or the whole string when no `.` occurs.
pub open spec fn major_of(s: Seq<char>) -> Seq<char> {
    s.take(char_index(s, '.'))
}

/// Whether `s` has a minor component, that is, contains a `.`.
pub open spec fn has_minor(s: Seq<char>) -> bool {
    char_index(s, '.') < s.len()
}

/// The text following the first `.` of `s`.
pub open spec fn after_major(s: Seq<char>) -> Seq<char> {
    s.skip(char_index(s, '.') + 1)
}

/// The minor component of a version: the text between the first and second
/// `.`; meaningful only when `has_minor(s)` holds.
pub open spec fn minor_of(s: Seq<char>) -> Seq<char> {
    major_of(after_major(s))
}

/// Returns the major component of a version string.
pub fn major_version(v: &str) -> (r: String)
    ensures
        r@ == major_of(v@),
{
    proof {
        lemma_char_index(v@, '.');
    }
    let n: usize = v.unicode_len();
    let i: usize = find_char(v, '.');
    let part: &str = v.substring_char(0, i);
    proof {
        assert(part@ =~= major_of(v@));
    }
    part.to_owned()
}

/// Returns the minor component of a version string, or `None` when the
/// string has no `.`.
pub fn minor_version(v: &str) -> (r: Option<String>)
    ensures
        r is Some <==> has_minor(v@),
        r is Some ==> r->0@ == minor_of(v@),
{
    proof {
        lemma_char_index(v@, '.');
    }
    let n: usize = v.unicode_len();
    let i: usize = find_char(v, '.');
    if i >= n {
        return None;
    }
    let rest: &str = v.substring_char(i + 1, n);
    proof {
        assert(rest@ =~= after_major(v@));
        lemma_char_index(rest@, '.');
    }
    let j: usize = find_char(rest, '.');
    let part: &str = rest.substring_char(0, j);
    proof {
        assert(part@ =~= minor_of(v@));
    }
    Some(part.to_owned())
}

/// A browser release track, or the marker that a request pins an exact
/// version rather than naming a track.
#[derive(Clone, Copy, PartialEq, Eq, Structural, Debug)]
pub enum Channel {
    Stable,
    Beta,
    Dev,
    Nightly,
    Fixed,
}

/// The channel a requested browser-version string denotes: the empty string
/// and `stable` mean the stable track; the literals `beta`, `dev`, `nightly`
/// and `canary` (compared without regard to ASCII case) mean their tracks;
/// anything else pins an exact version.
pub open spec fn classified(s: Seq<char>) -> Channel {
    if s.len() == 0 || eq_ignore_case(s, "stable"@) {
        Channel::Stable
    } else if eq_ignore_case(s, "beta"@) {
        Channel::Beta
    } else if eq_ignore_case(s, "dev"@) {
        Channel::Dev
    } else if eq_ignore_case(s, "nightly"@) || eq_ignore_case(s, "canary"@) {
        Channel::Nightly
    } else {
        Channel::Fixed
    }
}

/// Classifies a requested browser-version string into its release channel.
pub fn classify(s: &str) -> (r: Channel)
    ensures
        r == classified(s@),
{
    if s.is_empty() || str_eq_ignore_ascii_case(s, "stable") {
        Channel::Stable
    } else if str_eq_ignore_ascii_case(s, "beta") {
        Channel::Beta
    } else if str_eq_ignore_ascii_case(s, "dev") {
        Channel::Dev
    } else if str_eq_ignore_ascii_case(s, "nightly") || str_eq_ignore_ascii_case(s, "canary") {
        Channel::Nightly
    } else {
        Channel::Fixed
    }
}

/// Whether a channel is an unstable track.
pub open spec fn is_unstable(c: Channel) -> bool {
    c is Beta || c is Dev || c is Nightly
}

/// Channel classification is total: every requested version string maps to
/// exactly one of the five channels, and `classify` computes that channel.
pub proof fn lemma_channel_classification_total(s: Seq<char>)
    ensures
        classified(s) is Stable || classified(s) is Beta || classified(s) is Dev || classified(
            s,
        ) is Nightly || classified(s) is Fixed,
{
}

} // verus!

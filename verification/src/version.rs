//! The manifest schema version, modelled as a release triple.
//!
//! The compatibility gate only needs to compare a declared version against
//! fixed `>=major.minor.patch` bounds and against an allow-list of exact
//! release versions, so the model keeps the numeric triple as plain values
//! and records only whether a pre-release or build tag was present: a tagged
//! version never satisfies a plain `>=` bound and never equals a plain
//! release version.

use vstd::prelude::*;

verus! {

#[derive(Clone, Copy, PartialEq, Eq, Structural, Debug)]
pub struct Version {
    pub major: u64,
    pub minor: u64,
    pub patch: u64,
    /// Whether the version string carried a pre-release tag.
    pub pre: bool,
    /// Whether the version string carried build metadata.
    pub build: bool,
}

/// Whether `v` is exactly the plain release `major.minor.patch`.
pub open spec fn spec_version_is(v: Version, major: u64, minor: u64, patch: u64) -> bool {
    v.major == major && v.minor == minor && v.patch == patch && !v.pre && !v.build
}

/// Whether `v` satisfies a `>=major.minor.patch` requirement: no pre-release
/// tag, and the triple at least the bound in lexicographic order.
pub open spec fn spec_version_at_least(v: Version, major: u64, minor: u64, patch: u64) -> bool {
    !v.pre && (v.major > major || (v.major == major && (v.minor > minor || (v.minor == minor
        && v.patch >= patch))))
}

impl Version {
    /// A plain release version with no pre-release or build tag.
    pub fn release(major: u64, minor: u64, patch: u64) -> (r: Version)
        ensures
            r == (Version { major, minor, patch, pre: false, build: false }),
    {
        Version { major, minor, patch, pre: false, build: false }
    }

    pub fn is(&self, major: u64, minor: u64, patch: u64) -> (r: bool)
        ensures
            r == spec_version_is(*self, major, minor, patch),
    {
        self.major == major && self.minor == minor && self.patch == patch && !self.pre
            && !self.build
    }

    pub fn at_least(&self, major: u64, minor: u64, patch: u64) -> (r: bool)
        ensures
            r == spec_version_at_least(*self, major, minor, patch),
    {
        !self.pre && (self.major > major || (self.major == major && (self.minor > minor || (
        self.minor == minor && self.patch >= patch))))
    }
}

} // verus!

//! Driver API versions: the triple the loader reports, the lexicographic
//! order on triples, and the packed single-word form the creation request
//! carries.

use vstd::prelude::*;

verus! {

/// A graphics API version as the driver or loader reports it.
#[derive(Clone, Copy, Debug, PartialEq, Eq, Structural)]
pub struct ApiVersion {
    pub major: u32,
    pub minor: u32,
    pub patch: u32,
}

/// Lexicographic order on version triples: `a` is at least `b`.
pub open spec fn spec_version_ge(a: ApiVersion, b: ApiVersion) -> bool {
    ||| a.major > b.major
    ||| (a.major == b.major && a.minor > b.minor)
    ||| (a.major == b.major && a.minor == b.minor && a.patch >= b.patch)
}

impl ApiVersion {
    pub fn new(major: u32, minor: u32, patch: u32) -> (r: ApiVersion)
        ensures
            r == (ApiVersion { major, minor, patch }),
    {
        ApiVersion { major, minor, patch }
    }

    /// Whether this version is at or above `other` in lexicographic order.
    pub fn at_least(&self, other: &ApiVersion) -> (r: bool)
        ensures
            r == spec_version_ge(*self, *other),
    {
        self.major > other.major
            || (self.major == other.major
                && (self.minor > other.minor
                    || (self.minor == other.minor && self.patch >= other.patch)))
    }
}

/// The first driver release whose distribution demands the portability
/// extension set on the portability operating system.
pub fn portability_threshold() -> (r: ApiVersion)
    ensures
        r == (ApiVersion { major: 1, minor: 3, patch: 216 }),
{
    ApiVersion { major: 1, minor: 3, patch: 216 }
}

/// The packed form of a version triple: ten bits of major, ten of minor,
/// twelve of patch.
pub open spec fn spec_pack_version(major: u32, minor: u32, patch: u32) -> u32 {
    (major << 22) | (minor << 12) | patch
}

/// Packs a version triple into the single word that application metadata
/// carries in the creation request.
pub fn pack_version(major: u32, minor: u32, patch: u32) -> (r: u32)
    requires
        major < 1024,
        minor < 1024,
        patch < 4096,
    ensures
        r == spec_pack_version(major, minor, patch),
{
    (major << 22) | (minor << 12) | patch
}

} // verus!

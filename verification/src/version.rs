use vstd::prelude::*;

verus! {

/// A Vulkan API version: `major.minor.patch`, ordered lexicographically.
#[derive(Clone, Copy, Debug, PartialEq, Eq, Hash)]
pub struct Version {
    pub major: u32,
    pub minor: u32,
    pub patch: u32,
}

/// `a >= b` in the lexicographic order of (major, minor, patch).
pub open spec fn version_ge(a: Version, b: Version) -> bool {
    ||| a.major > b.major
    ||| a.major == b.major && a.minor > b.minor
    ||| a.major == b.major && a.minor == b.minor && a.patch >= b.patch
}

/// The version `major.minor.0`.
pub open spec fn version_spec(major: u32, minor: u32) -> Version {
    Version { major, minor, patch: 0 }
}

impl Version {
    /// Vulkan 1.0.
    pub fn v1_0() -> (v: Version)
        ensures
            v == version_spec(1, 0),
    {
        Version { major: 1, minor: 0, patch: 0 }
    }

    /// Vulkan 1.1.
    pub fn v1_1() -> (v: Version)
        ensures
            v == version_spec(1, 1),
    {
        Version { major: 1, minor: 1, patch: 0 }
    }

    /// Vulkan 1.2.
    pub fn v1_2() -> (v: Version)
        ensures
            v == version_spec(1, 2),
    {
        Version { major: 1, minor: 2, patch: 0 }
    }

    /// Vulkan 1.3.
    pub fn v1_3() -> (v: Version)
        ensures
            v == version_spec(1, 3),
    {
        Version { major: 1, minor: 3, patch: 0 }
    }

    /// Returns whether `self` is the same as or later than `other`.
    pub fn at_least(&self, other: &Version) -> (r: bool)
        ensures
            r == version_ge(*self, *other),
    {
        self.major > other.major || (self.major == other.major && (self.minor > other.minor || (
        self.minor == other.minor && self.patch >= other.patch)))
    }
}

} // verus!

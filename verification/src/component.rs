//! open.mp component metadata.
use vstd::prelude::*;

verus! {

/// Semantic version matching open.mp's `SemanticVersion`.
#[derive(Clone, Copy, Debug)]
pub struct ComponentVersion {
    pub major: u8,
    pub minor: u8,
    pub patch: u8,
    pub prerel: u16,
}

impl ComponentVersion {
    /// A release version `major.minor.patch` (no pre-release number).
    pub fn new(major: u8, minor: u8, patch: u8) -> (v: Self)
        ensures
            v.major == major,
            v.minor == minor,
            v.patch == patch,
            v.prerel == 0,
    {
        ComponentVersion { major, minor, patch, prerel: 0 }
    }
}

} // verus!

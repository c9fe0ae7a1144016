//! Game version and platform tags.

use vstd::prelude::*;

verus! {

/// The game title a resource or install belongs to.
#[derive(Debug, PartialEq, Eq, Structural, Clone, Copy, Hash, PartialOrd, Ord)]
pub enum GameVersion {
    H1,
    H2,
    H3,
}

impl GameVersion {
    /// Stable ordinal of the version, used to state what version-dependent
    /// outside computations were given.
    pub open spec fn ordinal(self) -> int {
        match self {
            GameVersion::H1 => 1,
            GameVersion::H2 => 2,
            GameVersion::H3 => 3,
        }
    }
}

/// The storefront a game install came from.
#[derive(Debug, PartialEq, Eq, Structural, Clone, Copy, Hash, PartialOrd, Ord)]
pub enum GamePlatform {
    Steam,
    Epic,
    GOG,
    Microsoft,
}

/// Failure to map an external tool's game-version tag onto [`GameVersion`].
#[derive(Debug, PartialEq, Eq, Structural, Clone, Copy)]
pub enum FromTonyToolsError {
    UnknownGameVersion,
}

} // verus!

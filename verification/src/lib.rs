//! Plugin manifest format and the `major.minor` contract versions shared by the
//! `FullTime` plugin host and its data-provider plugins.
//!
//! The manifest checks here cover structure and field format only: a manifest that
//! passes them names a plugin, its release, the schema and interface versions it was
//! built against, and the network hosts it needs. Whether those hosts are reachable or
//! permitted is decided by the host runtime, not here.

pub mod manifest;
pub mod version;

pub use manifest::{
    is_blank_str, parse_version, required, Manifest, ManifestError, ManifestField, RawManifest,
};
pub use version::{ParseVersionError, Version};

use vstd::prelude::*;

verus! {

/// Current version of the canonical league-data schema.
///
/// A plugin declaring `schema_version` in its manifest is compatible with a host running
/// this version when `schema_version().accepts(plugin_schema_version)` holds.
pub fn schema_version() -> (v: Version)
    ensures
        v == (Version { major: 1, minor: 0 }),
{
    Version::new(1, 0)
}

/// Current version of the `data-provider` interface.
///
/// A plugin declaring `interface_version` in its manifest is compatible with a host
/// running this version when `interface_version().accepts(plugin_interface_version)`
/// holds.
pub fn interface_version() -> (v: Version)
    ensures
        v == (Version { major: 2, minor: 0 }),
{
    Version::new(2, 0)
}

} // verus!

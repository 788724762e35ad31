//! Publishing and serving static sites over a distributed hash table.
//!
//! The library holds the verified core: package manifests and archives,
//! signing and hashing, the chunked record layout used to store a package,
//! the overlay client's attachment decisions, and the gateway's host and
//! path resolution.
use vstd::prelude::*;

pub mod archive;
pub mod crypto;
pub mod error;
pub mod gateway;
pub mod hexcode;
pub mod local;
pub mod package;
pub mod serve;
pub mod slug;
pub mod store;
pub mod text;
pub mod types;
pub mod veilid;

verus! {

/// Version of the package format written into new manifests.
pub const PACKAGE_FORMAT_VERSION: &'static str = "1.0.0";

/// File extension of a package file.
pub const PACKAGE_EXTENSION: &'static str = ".veilidpkg";

/// Name of the manifest entry inside a package archive.
pub const MANIFEST_FILENAME: &'static str = "veilid.json";

} // verus!

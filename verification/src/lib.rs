//! Finds out which of a package's direct dependencies have a newer release in
//! the registry, and rewrites their version pins in the package manifest.

pub mod cli;
pub mod helpers;
pub mod manifest;
pub mod resolver;
pub mod types;
pub mod version;

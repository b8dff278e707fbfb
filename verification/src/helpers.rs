//! The two steps of a run: checking one dependency, and writing the updates
//! into the manifest.

use vstd::prelude::*;
use crate::manifest::{is_update_of, parsed_manifest, Manifest};
use crate::resolver::{outcome_view, resolution, resolve};
use crate::types::{Crate, DependencySpec, RegistrySnapshot, ResolutionError, UpdateError};

verus! {

/// Resolves one dependency against what the registry reports of it, and
/// appends what was found to `crates`. On an error `crates` stays as it is,
/// so that the caller can skip this dependency and go on.
pub fn check_dependency_version(
    dependency: &DependencySpec,
    snapshot: &RegistrySnapshot,
    crates: &mut Vec<Crate>,
) -> (outcome: Result<Crate, ResolutionError>)
    ensures
        outcome_view(outcome) == resolution(dependency@, snapshot@),
        match outcome {
            Ok(found) => final(crates)@ == old(crates)@.push(found),
            Err(_) => final(crates)@ == old(crates)@,
        },
{
    match resolve(dependency, snapshot) {
        Ok(found) => {
            crates.push(found.clone());
            Ok(found)
        },
        Err(e) => Err(e),
    }
}

/// Rewrites the text of a manifest: every crate of `output` that has an
/// update, and that the `dependencies` section pins, gets its recommended
/// version there. Returns the new text of the whole manifest, or
/// `ManifestParseError` where `manifest_text` is no valid document.
pub fn update_cargo_toml(manifest_text: &str, output: &[Crate]) -> (written: Result<
    String,
    UpdateError,
>)
    ensures
        match written {
            Ok(text) => is_update_of(text@, manifest_text@, output@),
            Err(e) => e == UpdateError::ManifestParseError && parsed_manifest(manifest_text@)
                is None,
        },
{
    match Manifest::parse(manifest_text) {
        Ok(mut manifest) => {
            manifest.apply_updates(output);
            let text = manifest.render();
            assert(manifest@.text == text@);
            Ok(text)
        },
        Err(e) => Err(e),
    }
}

} // verus!

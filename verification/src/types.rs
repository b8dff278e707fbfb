//! The values that pass between the caller, the resolver and the manifest
//! updater.

use vstd::prelude::*;

verus! {

/// One dependency as it came out of resolution: its name, the requirement
/// that the manifest declares, the release to move to, and whether that
/// release is newer than what is declared.
#[derive(Debug, PartialEq, Eq)]
pub struct Crate {
    pub name: String,
    pub local_version: String,
    pub latest_version: String,
    pub update_available: bool,
}

/// A [`Crate`] with its strings as sequences of characters.
pub struct CrateView {
    pub name: Seq<char>,
    pub local_version: Seq<char>,
    pub latest_version: Seq<char>,
    pub update_available: bool,
}

impl View for Crate {
    type V = CrateView;

    open spec fn view(&self) -> CrateView {
        CrateView {
            name: self.name@,
            local_version: self.local_version@,
            latest_version: self.latest_version@,
            update_available: self.update_available,
        }
    }
}

impl Clone for Crate {
    /// A copy that is equal to this crate in every field.
    fn clone(&self) -> (copy: Self)
        ensures
            copy == *self,
    {
        Crate {
            name: self.name.clone(),
            local_version: self.local_version.clone(),
            latest_version: self.latest_version.clone(),
            update_available: self.update_available,
        }
    }
}

/// A dependency as the package declares it.
#[derive(Debug, PartialEq, Eq)]
pub struct DependencySpec {
    /// The name under which the registry knows it.
    pub name: String,
    /// The version requirement, such as `^1.2.0`.
    pub requirement: String,
}

/// A [`DependencySpec`] with its strings as sequences of characters.
pub struct DependencySpecView {
    pub name: Seq<char>,
    pub requirement: Seq<char>,
}

impl View for DependencySpec {
    type V = DependencySpecView;

    open spec fn view(&self) -> DependencySpecView {
        DependencySpecView { name: self.name@, requirement: self.requirement@ }
    }
}

/// What the registry reports of one crate.
#[derive(Debug, PartialEq, Eq)]
pub struct RegistrySnapshot {
    /// The newest release of all, which may be a pre-release.
    pub max_version: String,
    /// The newest release that is no pre-release, if there is one.
    pub max_stable_version: Option<String>,
}

/// A [`RegistrySnapshot`] with its strings as sequences of characters.
pub struct RegistrySnapshotView {
    pub max_version: Seq<char>,
    pub max_stable_version: Option<Seq<char>>,
}

impl View for RegistrySnapshot {
    type V = RegistrySnapshotView;

    open spec fn view(&self) -> RegistrySnapshotView {
        RegistrySnapshotView {
            max_version: self.max_version@,
            max_stable_version: match self.max_stable_version {
                Some(s) => Some(s@),
                None => None,
            },
        }
    }
}

/// Why one dependency could not be resolved. None of these ends the run: the
/// caller skips the dependency and goes on with the next.
#[derive(Clone, Copy, Debug, PartialEq, Eq, Structural)]
pub enum ResolutionError {
    /// The requirement is no version requirement.
    InvalidRequirement,
    /// The requirement holds no comparator to take a baseline from.
    NoComparator,
    /// A version that the registry reported is no version.
    InvalidRegistryVersion,
    /// The registry could not be asked, or did not know the crate.
    RegistryLookupFailed,
}

/// Why the manifest could not be updated. Each of these ends the run.
#[derive(Clone, Copy, Debug, PartialEq, Eq, Structural)]
pub enum UpdateError {
    /// The manifest could not be read.
    ManifestReadError,
    /// The manifest is no valid document.
    ManifestParseError,
    /// The manifest could not be written back.
    ManifestWriteError,
}

} // verus!

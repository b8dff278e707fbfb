//! Resolution: from a declared requirement and the registry's report to the
//! release to recommend, and whether it is an update.

use vstd::prelude::*;
use crate::types::{
    Crate, CrateView, DependencySpec, DependencySpecView, RegistrySnapshot, RegistrySnapshotView,
    ResolutionError,
};
use crate::version::{
    baseline_of, parse_requirement, parsed_requirement, parsed_version, precedes, ComparatorView,
    Version, VersionView,
};

verus! {

/// The text that stands for the newest stable release: what the registry
/// reports, or `0.0.0` where it reports none.
pub open spec fn stable_text(snapshot: RegistrySnapshotView) -> Seq<char> {
    match snapshot.max_stable_version {
        Some(text) => text,
        None => "0.0.0"@,
    }
}

/// Whether the newest stable release is the one to recommend: always for a
/// baseline that is a release, and for a pre-release baseline where the
/// stable release has overtaken it.
pub open spec fn prefers_stable(baseline: VersionView, stable: VersionView) -> bool {
    baseline.pre.len() == 0 || precedes(baseline, stable)
}

/// The outcome for a dependency whose baseline and registry versions are
/// known. The recommended release is the stable one where that is preferred
/// and the newest of all otherwise, and there is an update where the baseline
/// comes before the recommended release.
pub open spec fn classified(
    dependency: DependencySpecView,
    baseline: VersionView,
    stable: VersionView,
    stable_text: Seq<char>,
    overall: VersionView,
    overall_text: Seq<char>,
) -> CrateView {
    if prefers_stable(baseline, stable) {
        CrateView {
            name: dependency.name,
            local_version: dependency.requirement,
            latest_version: stable_text,
            update_available: precedes(baseline, stable),
        }
    } else {
        CrateView {
            name: dependency.name,
            local_version: dependency.requirement,
            latest_version: overall_text,
            update_available: precedes(baseline, overall),
        }
    }
}

/// The outcome of resolution. The baseline is taken from the first comparator
/// of the requirement, whatever follows it.
pub open spec fn resolution(
    dependency: DependencySpecView,
    snapshot: RegistrySnapshotView,
) -> Result<CrateView, ResolutionError> {
    match parsed_requirement(dependency.requirement) {
        None => Err(ResolutionError::InvalidRequirement),
        Some(comparators) => if comparators.len() == 0 {
            Err(ResolutionError::NoComparator)
        } else {
            match (parsed_version(stable_text(snapshot)), parsed_version(snapshot.max_version)) {
                (Some(stable), Some(overall)) => Ok(
                    classified(
                        dependency,
                        baseline_of(comparators[0]),
                        stable,
                        stable_text(snapshot),
                        overall,
                        snapshot.max_version,
                    ),
                ),
                _ => Err(ResolutionError::InvalidRegistryVersion),
            }
        },
    }
}

/// An outcome with the strings of the crate it may hold as sequences of
/// characters.
pub open spec fn outcome_view(outcome: Result<Crate, ResolutionError>) -> Result<
    CrateView,
    ResolutionError,
> {
    match outcome {
        Ok(found) => Ok(found@),
        Err(e) => Err(e),
    }
}

/// The baseline of a dependency whose requirement has a comparator.
pub open spec fn baseline(dependency: DependencySpecView) -> VersionView
    recommends
        parsed_requirement(dependency.requirement) matches Some(comparators) && comparators.len()
            > 0,
{
    baseline_of(parsed_requirement(dependency.requirement).unwrap()[0])
}

/// The newest stable release of a snapshot whose stable text is a version.
pub open spec fn stable_version(snapshot: RegistrySnapshotView) -> VersionView
    recommends
        parsed_version(stable_text(snapshot)) is Some,
{
    parsed_version(stable_text(snapshot)).unwrap()
}

/// The newest release of all of a snapshot whose text for it is a version.
pub open spec fn overall_version(snapshot: RegistrySnapshotView) -> VersionView
    recommends
        parsed_version(snapshot.max_version) is Some,
{
    parsed_version(snapshot.max_version).unwrap()
}

/// Classifies a dependency whose baseline and registry versions have been
/// read already. `stable_text` and `overall_text` are the texts that the
/// registry gave for `stable` and `overall`; the one that is recommended is
/// handed on as it is.
pub fn classify(
    dependency: &DependencySpec,
    baseline: &Version,
    stable: &Version,
    stable_text: &str,
    overall: &Version,
    overall_text: &str,
) -> (outcome: Crate)
    ensures
        outcome@ == classified(
            dependency@,
            baseline@,
            stable@,
            stable_text@,
            overall@,
            overall_text@,
        ),
{
    let stable_is_newer = baseline.precedes(stable);
    if !baseline.is_prerelease() || stable_is_newer {
        Crate {
            name: dependency.name.clone(),
            local_version: dependency.requirement.clone(),
            latest_version: stable_text.to_owned(),
            update_available: stable_is_newer,
        }
    } else {
        Crate {
            name: dependency.name.clone(),
            local_version: dependency.requirement.clone(),
            latest_version: overall_text.to_owned(),
            update_available: baseline.precedes(overall),
        }
    }
}

/// Resolves one dependency against what the registry reports of it.
pub fn resolve(dependency: &DependencySpec, snapshot: &RegistrySnapshot) -> (outcome: Result<
    Crate,
    ResolutionError,
>)
    ensures
        outcome_view(outcome) == resolution(dependency@, snapshot@),
{
    let comparators = match parse_requirement(dependency.requirement.as_str()) {
        Some(comparators) => comparators,
        None => { return Err(ResolutionError::InvalidRequirement); },
    };
    if comparators.len() == 0 {
        return Err(ResolutionError::NoComparator);
    }
    let baseline = comparators[0].baseline();
    let stable_text: &str = match &snapshot.max_stable_version {
        Some(text) => text.as_str(),
        None => "0.0.0",
    };
    let stable = match Version::parse(stable_text) {
        Some(stable) => stable,
        None => { return Err(ResolutionError::InvalidRegistryVersion); },
    };
    let overall_text = snapshot.max_version.as_str();
    let overall = match Version::parse(overall_text) {
        Some(overall) => overall,
        None => { return Err(ResolutionError::InvalidRegistryVersion); },
    };
    Ok(classify(dependency, &baseline, &stable, stable_text, &overall, overall_text))
}

/// Resolution is a function of what it is given: whatever two runs on the
/// same dependency and the same snapshot return is the same.
pub proof fn lemma_resolution_is_deterministic(
    dependency: DependencySpec,
    snapshot: RegistrySnapshot,
    again_dependency: DependencySpec,
    again_snapshot: RegistrySnapshot,
    first: Result<Crate, ResolutionError>,
    second: Result<Crate, ResolutionError>,
)
    requires
        dependency@ == again_dependency@,
        snapshot@ == again_snapshot@,
        outcome_view(first) == resolution(dependency@, snapshot@),
        outcome_view(second) == resolution(again_dependency@, again_snapshot@),
    ensures
        outcome_view(first) == outcome_view(second),
{
}

/// Resolution fails exactly where a text cannot be read: on a requirement
/// that is none or has no comparator, and on a registry version that is none.
/// It never reports a failed lookup, which only the caller can meet.
pub proof fn lemma_resolution_errors(dependency: DependencySpecView, snapshot: RegistrySnapshotView)
    ensures
        resolution(dependency, snapshot) == Err::<CrateView, ResolutionError>(
            ResolutionError::InvalidRequirement,
        ) <==> parsed_requirement(dependency.requirement) is None,
        resolution(dependency, snapshot) == Err::<CrateView, ResolutionError>(
            ResolutionError::NoComparator,
        ) <==> parsed_requirement(dependency.requirement) == Some(Seq::<ComparatorView>::empty()),
        resolution(dependency, snapshot) == Err::<CrateView, ResolutionError>(
            ResolutionError::InvalidRegistryVersion,
        ) <==> (parsed_requirement(dependency.requirement) matches Some(comparators)
            && comparators.len() > 0 && (parsed_version(stable_text(snapshot)) is None
            || parsed_version(snapshot.max_version) is None)),
        resolution(dependency, snapshot) != Err::<CrateView, ResolutionError>(
            ResolutionError::RegistryLookupFailed,
        ),
{
    if let Some(comparators) = parsed_requirement(dependency.requirement) {
        if comparators.len() == 0 {
            assert(comparators =~= Seq::<ComparatorView>::empty());
        }
    }
}

/// What resolution finds carries the name and the requirement of the
/// dependency as they were given, and recommends one of the two releases of
/// the snapshot by the text that stands for it there: the newest stable one
/// or the newest of all. No version text is put together anew.
pub proof fn lemma_recommended_release_is_reported(
    dependency: DependencySpecView,
    snapshot: RegistrySnapshotView,
)
    requires
        resolution(dependency, snapshot) is Ok,
    ensures
        resolution(dependency, snapshot).unwrap().name == dependency.name,
        resolution(dependency, snapshot).unwrap().local_version == dependency.requirement,
        resolution(dependency, snapshot).unwrap().latest_version == stable_text(snapshot)
            || resolution(dependency, snapshot).unwrap().latest_version == snapshot.max_version,
{
}

/// A baseline that is a release and equals the newest stable release has no
/// update.
pub proof fn lemma_current_release_has_no_update(
    dependency: DependencySpecView,
    snapshot: RegistrySnapshotView,
)
    requires
        resolution(dependency, snapshot) is Ok,
        baseline(dependency).pre.len() == 0,
        baseline(dependency) == stable_version(snapshot),
    ensures
        !resolution(dependency, snapshot).unwrap().update_available,
{
}

/// A baseline that is a release is held against the newest stable release
/// alone, whatever pre-releases the registry has.
pub proof fn lemma_release_follows_stable(
    dependency: DependencySpecView,
    snapshot: RegistrySnapshotView,
)
    requires
        resolution(dependency, snapshot) is Ok,
        baseline(dependency).pre.len() == 0,
    ensures
        resolution(dependency, snapshot).unwrap().latest_version == stable_text(snapshot),
        resolution(dependency, snapshot).unwrap().update_available == precedes(
            baseline(dependency),
            stable_version(snapshot),
        ),
{
}

/// Where the baseline is a pre-release and the newest stable release comes
/// after it, the stable release is recommended, even if the newest release of
/// all is newer still.
pub proof fn lemma_prerelease_overtaken_by_stable(
    dependency: DependencySpecView,
    snapshot: RegistrySnapshotView,
)
    requires
        resolution(dependency, snapshot) is Ok,
        baseline(dependency).pre.len() > 0,
        precedes(baseline(dependency), stable_version(snapshot)),
    ensures
        resolution(dependency, snapshot).unwrap().latest_version == stable_text(snapshot),
        resolution(dependency, snapshot).unwrap().update_available,
{
}

/// Where the baseline is a pre-release and the newest stable release does not
/// come after it, the newest release of all is recommended, and there is an
/// update where the baseline comes before that one.
pub proof fn lemma_prerelease_stays_on_track(
    dependency: DependencySpecView,
    snapshot: RegistrySnapshotView,
)
    requires
        resolution(dependency, snapshot) is Ok,
        baseline(dependency).pre.len() > 0,
        !precedes(baseline(dependency), stable_version(snapshot)),
    ensures
        resolution(dependency, snapshot).unwrap().latest_version == snapshot.max_version,
        resolution(dependency, snapshot).unwrap().update_available == precedes(
            baseline(dependency),
            overall_version(snapshot),
        ),
{
}

} // verus!

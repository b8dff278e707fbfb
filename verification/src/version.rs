//! Versions and version requirements as plain values, and their precedence.
//!
//! Parsing and the order of pre-release tags are semver's; everything else
//! here is checked.

use vstd::prelude::*;

verus! {

/// The error that semver's parsers return.
#[verifier::external_type_specification]
#[verifier::external_body]
pub struct ExSemverError(semver::Error);

/// A version: three numbers and a pre-release tag, which is empty for a
/// release. Build metadata plays no part in precedence and is not kept.
#[derive(Debug, PartialEq, Eq)]
pub struct Version {
    pub major: u64,
    pub minor: u64,
    pub patch: u64,
    pub pre: String,
}

/// The mathematical value of a [`Version`].
pub struct VersionView {
    pub major: nat,
    pub minor: nat,
    pub patch: nat,
    pub pre: Seq<char>,
}

impl View for Version {
    type V = VersionView;

    open spec fn view(&self) -> VersionView {
        VersionView {
            major: self.major as nat,
            minor: self.minor as nat,
            patch: self.patch as nat,
            pre: self.pre@,
        }
    }
}

/// One comparator of a requirement, without its operator: a version of which
/// the minor and patch numbers may be left out.
#[derive(Debug, PartialEq, Eq)]
pub struct Comparator {
    pub major: u64,
    pub minor: Option<u64>,
    pub patch: Option<u64>,
    pub pre: String,
}

/// The mathematical value of a [`Comparator`].
pub struct ComparatorView {
    pub major: nat,
    pub minor: Option<nat>,
    pub patch: Option<nat>,
    pub pre: Seq<char>,
}

impl View for Comparator {
    type V = ComparatorView;

    open spec fn view(&self) -> ComparatorView {
        ComparatorView {
            major: self.major as nat,
            minor: match self.minor {
                Some(n) => Some(n as nat),
                None => None,
            },
            patch: match self.patch {
                Some(n) => Some(n as nat),
                None => None,
            },
            pre: self.pre@,
        }
    }
}

/// What `semver::Version::parse` makes of a text: the version it reads,
/// without its build metadata, or `None` where it rejects the text.
pub uninterp spec fn parsed_version(text: Seq<char>) -> Option<VersionView>;

/// What `semver::VersionReq::parse` makes of a text: the comparators it
/// reads, in the order written, or `None` where it rejects the text.
pub uninterp spec fn parsed_requirement(text: Seq<char>) -> Option<Seq<ComparatorView>>;

/// Whether the pre-release tag `a` comes before the tag `b` in the order that
/// `semver::Prerelease` implements.
pub uninterp spec fn prerelease_precedes(a: Seq<char>, b: Seq<char>) -> bool;

/// The values of a list of comparators.
pub open spec fn comparator_views(comparators: Seq<Comparator>) -> Seq<ComparatorView> {
    comparators.map_values(|c: Comparator| c@)
}

/// Calls `semver::Version::parse` and copies the numbers and the pre-release
/// tag out of the result. Nothing is claimed of the result but that it is
/// what semver reads from this text.
#[verifier::external_body]
fn semver_parse_version(text: &str) -> (r: Result<Version, semver::Error>)
    ensures
        match r {
            Ok(v) => parsed_version(text@) == Some(v@),
            Err(_) => parsed_version(text@) is None,
        },
{
    match semver::Version::parse(text) {
        Ok(v) => Ok(
            Version {
                major: v.major,
                minor: v.minor,
                patch: v.patch,
                pre: v.pre.as_str().to_owned(),
            },
        ),
        Err(e) => Err(e),
    }
}

/// Calls `semver::VersionReq::parse` and copies the numbers and the
/// pre-release tag out of each comparator of the result, in order. Nothing is
/// claimed of the result but that it is what semver reads from this text.
#[verifier::external_body]
fn semver_parse_requirement(text: &str) -> (r: Result<Vec<Comparator>, semver::Error>)
    ensures
        match r {
            Ok(comparators) => parsed_requirement(text@) == Some(comparator_views(comparators@)),
            Err(_) => parsed_requirement(text@) is None,
        },
{
    match semver::VersionReq::parse(text) {
        Ok(req) => Ok(
            req.comparators.iter().map(
                |c|
                    Comparator {
                        major: c.major,
                        minor: c.minor,
                        patch: c.patch,
                        pre: c.pre.as_str().to_owned(),
                    },
            ).collect(),
        ),
        Err(e) => Err(e),
    }
}

/// Compares two pre-release tags with `<` on `semver::Prerelease`. A text
/// that semver does not take for a tag stands for the empty tag there; the
/// tags that semver's parsers hand out are all taken.
#[verifier::external_body]
fn semver_prerelease_lt(a: &str, b: &str) -> (r: bool)
    ensures
        r == prerelease_precedes(a@, b@),
{
    semver::Prerelease::new(a).unwrap_or_default() < semver::Prerelease::new(b).unwrap_or_default()
}

/// Precedence: `a` comes before `b`. The numbers decide from left to right;
/// where they are equal, a pre-release comes before the release, and two
/// pre-releases go by their tags.
pub open spec fn precedes(a: VersionView, b: VersionView) -> bool {
    if a.major != b.major {
        a.major < b.major
    } else if a.minor != b.minor {
        a.minor < b.minor
    } else if a.patch != b.patch {
        a.patch < b.patch
    } else if a.pre.len() == 0 {
        false
    } else if b.pre.len() == 0 {
        true
    } else {
        prerelease_precedes(a.pre, b.pre)
    }
}

/// The version that a comparator stands for when it is taken as a baseline:
/// numbers that it leaves out count as zero, and its tag is kept.
pub open spec fn baseline_of(c: ComparatorView) -> VersionView {
    VersionView {
        major: c.major,
        minor: match c.minor {
            Some(n) => n,
            None => 0,
        },
        patch: match c.patch {
            Some(n) => n,
            None => 0,
        },
        pre: c.pre,
    }
}

impl Version {
    /// The release `major.minor.patch`.
    pub fn new(major: u64, minor: u64, patch: u64) -> (v: Version)
        ensures
            v@ == (VersionView {
                major: major as nat,
                minor: minor as nat,
                patch: patch as nat,
                pre: Seq::empty(),
            }),
    {
        Version { major, minor, patch, pre: String::new() }
    }

    /// Reads a version from its text, or returns `None` where the text is no
    /// version.
    pub fn parse(text: &str) -> (r: Option<Version>)
        ensures
            match r {
                Some(v) => parsed_version(text@) == Some(v@),
                None => parsed_version(text@) is None,
            },
    {
        match semver_parse_version(text) {
            Ok(v) => Some(v),
            Err(_) => None,
        }
    }

    /// Whether this is a pre-release, that is, whether it has a tag.
    pub fn is_prerelease(&self) -> (r: bool)
        ensures
            r == (self@.pre.len() > 0),
    {
        !self.pre.as_str().is_empty()
    }

    /// Whether this version comes before `other`.
    pub fn precedes(&self, other: &Version) -> (r: bool)
        ensures
            r == precedes(self@, other@),
    {
        if self.major != other.major {
            self.major < other.major
        } else if self.minor != other.minor {
            self.minor < other.minor
        } else if self.patch != other.patch {
            self.patch < other.patch
        } else if self.pre.as_str().is_empty() {
            false
        } else if other.pre.as_str().is_empty() {
            true
        } else {
            semver_prerelease_lt(self.pre.as_str(), other.pre.as_str())
        }
    }
}

impl Comparator {
    /// The version to compare registry releases against.
    pub fn baseline(&self) -> (v: Version)
        ensures
            v@ == baseline_of(self@),
    {
        let minor: u64 = match self.minor {
            Some(n) => n,
            None => 0,
        };
        let patch: u64 = match self.patch {
            Some(n) => n,
            None => 0,
        };
        Version { major: self.major, minor, patch, pre: self.pre.clone() }
    }
}

/// Reads a requirement from its text and returns its comparators in the
/// order written, or `None` where the text is no requirement.
pub fn parse_requirement(text: &str) -> (r: Option<Vec<Comparator>>)
    ensures
        match r {
            Some(comparators) => parsed_requirement(text@) == Some(comparator_views(comparators@)),
            None => parsed_requirement(text@) is None,
        },
{
    match semver_parse_requirement(text) {
        Ok(comparators) => Some(comparators),
        Err(_) => None,
    }
}

} // verus!

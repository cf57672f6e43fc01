//! Release levels of the release tooling.
use vstd::prelude::*;

verus! {

/// How far a release moves the version.
#[derive(Clone, Copy, PartialEq, Eq, Structural, Debug)]
pub enum ReleaseLevel {
    Alpha,
    Rc,
    Patch,
    Minor,
    Major,
}

impl ReleaseLevel {
    pub open spec fn spec_name(self) -> Seq<char> {
        match self {
            ReleaseLevel::Alpha => "alpha"@,
            ReleaseLevel::Rc => "rc"@,
            ReleaseLevel::Patch => "patch"@,
            ReleaseLevel::Minor => "minor"@,
            ReleaseLevel::Major => "major"@,
        }
    }

    /// The level's name, as the release tool takes it.
    pub fn as_str(self) -> (r: &'static str)
        ensures
            r@ == self.spec_name(),
    {
        match self {
            ReleaseLevel::Alpha => "alpha",
            ReleaseLevel::Rc => "rc",
            ReleaseLevel::Patch => "patch",
            ReleaseLevel::Minor => "minor",
            ReleaseLevel::Major => "major",
        }
    }

    /// Whether a release at this level is a pre-release.
    pub fn is_prerelease(self) -> (r: bool)
        ensures
            r == (self is Alpha || self is Rc),
    {
        match self {
            ReleaseLevel::Alpha | ReleaseLevel::Rc => true,
            _ => false,
        }
    }
}

} // verus!

use crate::util::str_eq;
use vstd::prelude::*;

verus! {

/// Compilation profile for the native library.
#[derive(Clone, Copy, Debug, PartialEq, Eq, Structural)]
pub enum FtwBuildType {
    Debug,
    Release,
}

/// What parsing a piece of text as a build type yields: the two
/// recognised keywords select their profile; anything else falls back to
/// `Debug`, never an error.
pub open spec fn spec_parse_build_type(s: Seq<char>) -> FtwBuildType {
    if s == "debug"@ {
        FtwBuildType::Debug
    } else if s == "release"@ {
        FtwBuildType::Release
    } else {
        FtwBuildType::Debug
    }
}

impl FtwBuildType {
    /// Total parse with fallback: unrecognised text yields `Debug`.
    pub fn parse(s: &str) -> (t: FtwBuildType)
        ensures
            t == spec_parse_build_type(s@),
    {
        if str_eq(s, "debug") {
            FtwBuildType::Debug
        } else if str_eq(s, "release") {
            FtwBuildType::Release
        } else {
            FtwBuildType::Debug
        }
    }

    /// The name of this profile as it appears in keyword tables, paths
    /// and messages.
    pub fn name(&self) -> (r: String)
        ensures
            r@ == self.spec_name(),
    {
        match self {
            FtwBuildType::Debug => "debug".to_owned(),
            FtwBuildType::Release => "release".to_owned(),
        }
    }

    /// Spec-level name of this profile.
    pub open spec fn spec_name(&self) -> Seq<char> {
        match self {
            FtwBuildType::Debug => "debug"@,
            FtwBuildType::Release => "release"@,
        }
    }
}

impl Default for FtwBuildType {
    /// The documented fallback profile.
    fn default() -> (t: FtwBuildType)
        ensures
            t == FtwBuildType::Debug,
    {
        FtwBuildType::Debug
    }
}

/// Parsing a build type never fails: text that is neither recognised
/// keyword resolves to the documented default, `Debug`.
pub proof fn lemma_parse_build_type_fallback(s: Seq<char>)
    ensures
        s != "debug"@ && s != "release"@ ==> spec_parse_build_type(s) == FtwBuildType::Debug,
{
}

} // verus!

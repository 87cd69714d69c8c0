use crate::util::str_eq;
use vstd::prelude::*;

verus! {

/// Source of a new project's initial scaffold: the bundled default
/// skeleton, or a custom template fetched from a git URL.
#[derive(Debug)]
pub enum FtwTemplate {
    Default,
    Custom { git_url: String },
}

impl FtwTemplate {
    /// Spec-level equality of two templates: same variant, and for
    /// custom templates the same URL text.
    pub open spec fn spec_eq(&self, other: &FtwTemplate) -> bool {
        match (self, other) {
            (FtwTemplate::Default, FtwTemplate::Default) => true,
            (
                FtwTemplate::Custom { git_url: a },
                FtwTemplate::Custom { git_url: b },
            ) => a@ == b@,
            _ => false,
        }
    }

    /// Total parse, the one enum whose fallback path is itself a
    /// catch-all: the keyword selects the bundled skeleton, and any
    /// other text is taken as a custom git URL, never an error.
    pub fn parse(s: &str) -> (t: FtwTemplate)
        ensures
            s@ == "default"@ ==> t is Default,
            s@ != "default"@ ==> (t matches FtwTemplate::Custom { git_url } && git_url@ == s@),
    {
        if str_eq(s, "default") {
            FtwTemplate::Default
        } else {
            FtwTemplate::Custom { git_url: s.to_owned() }
        }
    }
}

impl Clone for FtwTemplate {
    fn clone(&self) -> (r: FtwTemplate)
        ensures
            r.spec_eq(self),
    {
        match self {
            FtwTemplate::Default => FtwTemplate::Default,
            FtwTemplate::Custom { git_url } => FtwTemplate::Custom { git_url: git_url.clone() },
        }
    }
}

impl PartialEq for FtwTemplate {
    fn eq(&self, other: &FtwTemplate) -> (r: bool) {
        match (self, other) {
            (FtwTemplate::Default, FtwTemplate::Default) => true,
            (
                FtwTemplate::Custom { git_url: a },
                FtwTemplate::Custom { git_url: b },
            ) => str_eq(a.as_str(), b.as_str()),
            _ => false,
        }
    }
}

impl vstd::std_specs::cmp::PartialEqSpecImpl for FtwTemplate {
    open spec fn obeys_eq_spec() -> bool {
        true
    }

    open spec fn eq_spec(&self, other: &FtwTemplate) -> bool {
        self.spec_eq(other)
    }
}

impl Default for FtwTemplate {
    /// The documented fallback template: the bundled skeleton.
    fn default() -> (t: FtwTemplate)
        ensures
            t is Default,
    {
        FtwTemplate::Default
    }
}

} // verus!

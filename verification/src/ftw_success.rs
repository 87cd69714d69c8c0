use crate::util::str_eq;
use vstd::prelude::*;

verus! {

/// Every way a dispatched command can succeed, each carrying what the
/// confirmation message names: the project, the class, the artifact or
/// the package.
#[derive(Debug)]
pub enum FtwSuccess {
    New { project_name: String },
    Class { class_name: String },
    Singleton { class_name: String },
    Run,
    Build { artifact: String },
    Export { package: String },
}

impl FtwSuccess {
    /// Spec-level equality of two success reports: same variant and
    /// same carried text.
    pub open spec fn spec_eq(&self, other: &FtwSuccess) -> bool {
        match (self, other) {
            (
                FtwSuccess::New { project_name: a },
                FtwSuccess::New { project_name: b },
            ) => a@ == b@,
            (FtwSuccess::Class { class_name: a }, FtwSuccess::Class { class_name: b }) => a@
                == b@,
            (
                FtwSuccess::Singleton { class_name: a },
                FtwSuccess::Singleton { class_name: b },
            ) => a@ == b@,
            (FtwSuccess::Run, FtwSuccess::Run) => true,
            (FtwSuccess::Build { artifact: a }, FtwSuccess::Build { artifact: b }) => a@ == b@,
            (FtwSuccess::Export { package: a }, FtwSuccess::Export { package: b }) => a@ == b@,
            _ => false,
        }
    }

    /// Spec-level user-facing confirmation message.
    pub open spec fn spec_message(&self) -> Seq<char> {
        match self {
            FtwSuccess::New { project_name } => "created a new project at ./"@ + project_name@,
            FtwSuccess::Class { class_name } => "created a class file for "@ + class_name@,
            FtwSuccess::Singleton { class_name } => "created and registered the singleton "@
                + class_name@,
            FtwSuccess::Run => "the game exited cleanly"@,
            FtwSuccess::Build { artifact } => "built the library at "@ + artifact@,
            FtwSuccess::Export { package } => "exported the package at "@ + package@,
        }
    }

    /// Renders this success as the message printed to standard output.
    pub fn to_message(&self) -> (r: String)
        ensures
            r@ == self.spec_message(),
    {
        match self {
            FtwSuccess::New { project_name } => "created a new project at ./".to_owned().concat(
                project_name.as_str(),
            ),
            FtwSuccess::Class { class_name } => "created a class file for ".to_owned().concat(
                class_name.as_str(),
            ),
            FtwSuccess::Singleton { class_name } => "created and registered the singleton "
                .to_owned().concat(class_name.as_str()),
            FtwSuccess::Run => "the game exited cleanly".to_owned(),
            FtwSuccess::Build { artifact } => "built the library at ".to_owned().concat(
                artifact.as_str(),
            ),
            FtwSuccess::Export { package } => "exported the package at ".to_owned().concat(
                package.as_str(),
            ),
        }
    }
}

impl PartialEq for FtwSuccess {
    fn eq(&self, other: &FtwSuccess) -> (r: bool) {
        match (self, other) {
            (
                FtwSuccess::New { project_name: a },
                FtwSuccess::New { project_name: b },
            ) => str_eq(a.as_str(), b.as_str()),
            (FtwSuccess::Class { class_name: a }, FtwSuccess::Class { class_name: b }) => str_eq(
                a.as_str(),
                b.as_str(),
            ),
            (
                FtwSuccess::Singleton { class_name: a },
                FtwSuccess::Singleton { class_name: b },
            ) => str_eq(a.as_str(), b.as_str()),
            (FtwSuccess::Run, FtwSuccess::Run) => true,
            (FtwSuccess::Build { artifact: a }, FtwSuccess::Build { artifact: b }) => str_eq(
                a.as_str(),
                b.as_str(),
            ),
            (FtwSuccess::Export { package: a }, FtwSuccess::Export { package: b }) => str_eq(
                a.as_str(),
                b.as_str(),
            ),
            _ => false,
        }
    }
}

impl vstd::std_specs::cmp::PartialEqSpecImpl for FtwSuccess {
    open spec fn obeys_eq_spec() -> bool {
        true
    }

    open spec fn eq_spec(&self, other: &FtwSuccess) -> bool {
        self.spec_eq(other)
    }
}

} // verus!

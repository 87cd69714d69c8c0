use crate::util::str_eq;
use vstd::prelude::*;

verus! {

/// Every way a dispatched command can fail, each carrying what a
/// user-facing message needs: the colliding path, the captured
/// diagnostic output, or the missing artifact.
#[derive(Debug)]
pub enum FtwError {
    /// The destination of a new project already exists.
    TargetExists { path: String },
    /// A custom template could not be fetched.
    TemplateFetch { message: String },
    /// A generated file collided with an existing one or could not be
    /// written.
    FileWrite { path: String },
    /// The project configuration is missing or unparseable.
    Configuration,
    /// The engine binary is missing or exited non-zero.
    Execution { message: String },
    /// The toolchain exited non-zero; carries its diagnostic output.
    Build { output: String },
    /// An export was attempted without the matching build artifact.
    Dependency { artifact: String },
    /// The engine export step failed.
    Export { message: String },
}

impl FtwError {
    /// Spec-level equality of two errors: same variant and same
    /// carried text.
    pub open spec fn spec_eq(&self, other: &FtwError) -> bool {
        match (self, other) {
            (FtwError::TargetExists { path: a }, FtwError::TargetExists { path: b }) => a@ == b@,
            (
                FtwError::TemplateFetch { message: a },
                FtwError::TemplateFetch { message: b },
            ) => a@ == b@,
            (FtwError::FileWrite { path: a }, FtwError::FileWrite { path: b }) => a@ == b@,
            (FtwError::Configuration, FtwError::Configuration) => true,
            (FtwError::Execution { message: a }, FtwError::Execution { message: b }) => a@ == b@,
            (FtwError::Build { output: a }, FtwError::Build { output: b }) => a@ == b@,
            (FtwError::Dependency { artifact: a }, FtwError::Dependency { artifact: b }) => a@
                == b@,
            (FtwError::Export { message: a }, FtwError::Export { message: b }) => a@ == b@,
            _ => false,
        }
    }

    /// Spec-level user-facing message for this error.
    pub open spec fn spec_message(&self) -> Seq<char> {
        match self {
            FtwError::TargetExists { path } => "destination "@ + path@ + " already exists"@,
            FtwError::TemplateFetch { message } => "could not fetch the template: "@ + message@,
            FtwError::FileWrite { path } => "could not write "@ + path@,
            FtwError::Configuration => "project configuration is missing or unparseable"@,
            FtwError::Execution { message } => "could not run the engine: "@ + message@,
            FtwError::Build { output } => "build failed: "@ + output@,
            FtwError::Dependency { artifact } => "missing build artifact "@ + artifact@
                + "; run the matching build first"@,
            FtwError::Export { message } => "export failed: "@ + message@,
        }
    }

    /// Renders this error as the message printed to standard error.
    pub fn to_message(&self) -> (r: String)
        ensures
            r@ == self.spec_message(),
    {
        match self {
            FtwError::TargetExists { path } => "destination ".to_owned().concat(
                path.as_str(),
            ).concat(" already exists"),
            FtwError::TemplateFetch { message } => "could not fetch the template: ".to_owned()
                .concat(message.as_str()),
            FtwError::FileWrite { path } => "could not write ".to_owned().concat(path.as_str()),
            FtwError::Configuration => "project configuration is missing or unparseable"
                .to_owned(),
            FtwError::Execution { message } => "could not run the engine: ".to_owned().concat(
                message.as_str(),
            ),
            FtwError::Build { output } => "build failed: ".to_owned().concat(output.as_str()),
            FtwError::Dependency { artifact } => "missing build artifact ".to_owned().concat(
                artifact.as_str(),
            ).concat("; run the matching build first"),
            FtwError::Export { message } => "export failed: ".to_owned().concat(message.as_str()),
        }
    }
}

impl PartialEq for FtwError {
    fn eq(&self, other: &FtwError) -> (r: bool) {
        match (self, other) {
            (FtwError::TargetExists { path: a }, FtwError::TargetExists { path: b }) => str_eq(
                a.as_str(),
                b.as_str(),
            ),
            (
                FtwError::TemplateFetch { message: a },
                FtwError::TemplateFetch { message: b },
            ) => str_eq(a.as_str(), b.as_str()),
            (FtwError::FileWrite { path: a }, FtwError::FileWrite { path: b }) => str_eq(
                a.as_str(),
                b.as_str(),
            ),
            (FtwError::Configuration, FtwError::Configuration) => true,
            (FtwError::Execution { message: a }, FtwError::Execution { message: b }) => str_eq(
                a.as_str(),
                b.as_str(),
            ),
            (FtwError::Build { output: a }, FtwError::Build { output: b }) => str_eq(
                a.as_str(),
                b.as_str(),
            ),
            (FtwError::Dependency { artifact: a }, FtwError::Dependency { artifact: b }) => str_eq(
                a.as_str(),
                b.as_str(),
            ),
            (FtwError::Export { message: a }, FtwError::Export { message: b }) => str_eq(
                a.as_str(),
                b.as_str(),
            ),
            _ => false,
        }
    }
}

impl vstd::std_specs::cmp::PartialEqSpecImpl for FtwError {
    open spec fn obeys_eq_spec() -> bool {
        true
    }

    open spec fn eq_spec(&self, other: &FtwError) -> bool {
        self.spec_eq(other)
    }
}

} // verus!

use crate::util::str_eq;
use vstd::prelude::*;

verus! {

/// Runtime mode for running a debug build: a windowed desktop game or a
/// headless dedicated server.
#[derive(Clone, Copy, Debug, PartialEq, Eq, Structural)]
pub enum FtwMachineType {
    Desktop,
    Server,
}

/// What parsing a piece of text as a machine type yields: the two
/// recognised keywords select their mode; anything else falls back to
/// `Desktop`, never an error.
pub open spec fn spec_parse_machine_type(s: Seq<char>) -> FtwMachineType {
    if s == "desktop"@ {
        FtwMachineType::Desktop
    } else if s == "server"@ {
        FtwMachineType::Server
    } else {
        FtwMachineType::Desktop
    }
}

impl FtwMachineType {
    /// Total parse with fallback: unrecognised text yields `Desktop`.
    pub fn parse(s: &str) -> (t: FtwMachineType)
        ensures
            t == spec_parse_machine_type(s@),
    {
        if str_eq(s, "desktop") {
            FtwMachineType::Desktop
        } else if str_eq(s, "server") {
            FtwMachineType::Server
        } else {
            FtwMachineType::Desktop
        }
    }

    /// The name of this mode as it appears in keyword tables and
    /// messages.
    pub fn name(&self) -> (r: String)
        ensures
            r@ == self.spec_name(),
    {
        match self {
            FtwMachineType::Desktop => "desktop".to_owned(),
            FtwMachineType::Server => "server".to_owned(),
        }
    }

    /// Spec-level name of this mode.
    pub open spec fn spec_name(&self) -> Seq<char> {
        match self {
            FtwMachineType::Desktop => "desktop"@,
            FtwMachineType::Server => "server"@,
        }
    }
}

impl Default for FtwMachineType {
    /// The documented fallback mode.
    fn default() -> (t: FtwMachineType)
        ensures
            t == FtwMachineType::Desktop,
    {
        FtwMachineType::Desktop
    }
}

/// Parsing a machine type never fails: text that is neither recognised
/// keyword resolves to the documented default, `Desktop`.
pub proof fn lemma_parse_machine_type_fallback(s: Seq<char>)
    ensures
        s != "desktop"@ && s != "server"@ ==> spec_parse_machine_type(s)
            == FtwMachineType::Desktop,
{
}

} // verus!

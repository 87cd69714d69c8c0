use crate::ftw_build_type::{spec_parse_build_type, FtwBuildType};
use crate::ftw_machine_type::{spec_parse_machine_type, FtwMachineType};
use crate::ftw_node_type::{spec_parse_node_type, FtwNodeType};
use crate::ftw_target::{spec_parse_target, FtwTarget};
use crate::ftw_template::FtwTemplate;
use crate::util::str_eq;
use vstd::prelude::*;

verus! {

/// One fully resolved command: exactly one is built per invocation, its
/// fields need no further parsing, and it is consumed exactly once by
/// the dispatch step.
#[derive(Debug)]
pub enum FtwCommand {
    New { project_name: String, template: FtwTemplate },
    Class { class_name: String, node_type: FtwNodeType },
    Singleton { class_name: String },
    Run { machine_type: FtwMachineType },
    Build { target: FtwTarget, build_type: FtwBuildType },
    Export { target: FtwTarget, build_type: FtwBuildType },
}

/// Whether the text names one of the supported subcommands.
pub open spec fn is_supported_subcommand(s: Seq<char>) -> bool {
    ||| s == "new"@
    ||| s == "class"@
    ||| s == "singleton"@
    ||| s == "run"@
    ||| s == "build"@
    ||| s == "export"@
}

/// What a given optional argument's text resolves to as a template:
/// absent or the keyword selects the bundled default, any other text is
/// a custom git URL.
pub open spec fn template_resolves(arg: Option<&str>, template: FtwTemplate) -> bool {
    match arg {
        Some(s) => {
            if s@ == "default"@ {
                template is Default
            } else {
                template matches FtwTemplate::Custom { git_url } && git_url@ == s@
            }
        },
        None => template is Default,
    }
}

impl FtwCommand {
    /// Spec-level equality of two commands: same variant, and each
    /// field resolved to the same value.
    pub open spec fn spec_eq(&self, other: &FtwCommand) -> bool {
        match (self, other) {
            (
                FtwCommand::New { project_name: a, template: ta },
                FtwCommand::New { project_name: b, template: tb },
            ) => a@ == b@ && ta.spec_eq(tb),
            (
                FtwCommand::Class { class_name: a, node_type: na },
                FtwCommand::Class { class_name: b, node_type: nb },
            ) => a@ == b@ && na == nb,
            (
                FtwCommand::Singleton { class_name: a },
                FtwCommand::Singleton { class_name: b },
            ) => a@ == b@,
            (
                FtwCommand::Run { machine_type: a },
                FtwCommand::Run { machine_type: b },
            ) => a == b,
            (
                FtwCommand::Build { target: ta, build_type: ba },
                FtwCommand::Build { target: tb, build_type: bb },
            ) => ta == tb && ba == bb,
            (
                FtwCommand::Export { target: ta, build_type: ba },
                FtwCommand::Export { target: tb, build_type: bb },
            ) => ta == tb && ba == bb,
            _ => false,
        }
    }
}

/// Builds the one command of this invocation from the subcommand name
/// and its raw optional argument texts, as the argument-parsing backend
/// hands them over. Construction is total over the supported
/// subcommands: whatever text stands in the arguments, a supported name
/// yields a command, every missing or unrecognised argument resolving
/// to its documented default — and the target of `build` and `export`
/// to `host`, the detected host platform.
#[verifier::rlimit(50)]
pub fn parse_command(
    subcommand: &str,
    first_arg: Option<&str>,
    second_arg: Option<&str>,
    host: FtwTarget,
) -> (r: Option<FtwCommand>)
    ensures
        r is Some <==> is_supported_subcommand(subcommand@),
        subcommand@ == "new"@ ==> (r matches Some(c) && c matches FtwCommand::New {
            project_name,
            template,
        } && (match first_arg {
            Some(s) => project_name@ == s@,
            None => project_name@ == "my-awesome-game"@,
        }) && template_resolves(second_arg, template)),
        subcommand@ == "class"@ ==> (r matches Some(c) && c matches FtwCommand::Class {
            class_name,
            node_type,
        } && (match first_arg {
            Some(s) => class_name@ == s@,
            None => class_name@ == "MyClass"@,
        }) && (match second_arg {
            Some(s) => node_type == spec_parse_node_type(s@),
            None => node_type == FtwNodeType::Node,
        })),
        subcommand@ == "singleton"@ ==> (r matches Some(c) && c matches FtwCommand::Singleton {
            class_name,
        } && (match first_arg {
            Some(s) => class_name@ == s@,
            None => class_name@ == "MySingletonClass"@,
        })),
        subcommand@ == "run"@ ==> (r matches Some(c) && c matches FtwCommand::Run {
            machine_type,
        } && (match first_arg {
            Some(s) => machine_type == spec_parse_machine_type(s@),
            None => machine_type == FtwMachineType::Desktop,
        })),
        subcommand@ == "build"@ ==> (r matches Some(c) && c matches FtwCommand::Build {
            target,
            build_type,
        } && (match first_arg {
            Some(s) => target == spec_parse_target(s@, host),
            None => target == host,
        }) && (match second_arg {
            Some(s) => build_type == spec_parse_build_type(s@),
            None => build_type == FtwBuildType::Debug,
        })),
        subcommand@ == "export"@ ==> (r matches Some(c) && c matches FtwCommand::Export {
            target,
            build_type,
        } && (match first_arg {
            Some(s) => target == spec_parse_target(s@, host),
            None => target == host,
        }) && (match second_arg {
            Some(s) => build_type == spec_parse_build_type(s@),
            None => build_type == FtwBuildType::Debug,
        })),
{
    proof {
        reveal_strlit("new");
        reveal_strlit("class");
        reveal_strlit("singleton");
        reveal_strlit("run");
        reveal_strlit("build");
        reveal_strlit("export");
        assert("new"@.len() == 3);
        assert("class"@.len() == 5);
        assert("singleton"@.len() == 9);
        assert("run"@.len() == 3);
        assert("build"@.len() == 5);
        assert("export"@.len() == 6);
        assert("new"@[0] == 'n' && "run"@[0] == 'r');
        assert("class"@[0] == 'c' && "build"@[0] == 'b');
    }
    if str_eq(subcommand, "new") {
        let project_name: String = match first_arg {
            Some(s) => s.to_owned(),
            None => "my-awesome-game".to_owned(),
        };
        let template: FtwTemplate = match second_arg {
            Some(s) => FtwTemplate::parse(s),
            None => FtwTemplate::Default,
        };
        Some(FtwCommand::New { project_name, template })
    } else if str_eq(subcommand, "class") {
        let class_name: String = match first_arg {
            Some(s) => s.to_owned(),
            None => "MyClass".to_owned(),
        };
        let node_type: FtwNodeType = match second_arg {
            Some(s) => FtwNodeType::parse(s),
            None => FtwNodeType::Node,
        };
        Some(FtwCommand::Class { class_name, node_type })
    } else if str_eq(subcommand, "singleton") {
        let class_name: String = match first_arg {
            Some(s) => s.to_owned(),
            None => "MySingletonClass".to_owned(),
        };
        Some(FtwCommand::Singleton { class_name })
    } else if str_eq(subcommand, "run") {
        let machine_type: FtwMachineType = match first_arg {
            Some(s) => FtwMachineType::parse(s),
            None => FtwMachineType::Desktop,
        };
        Some(FtwCommand::Run { machine_type })
    } else if str_eq(subcommand, "build") {
        let target: FtwTarget = match first_arg {
            Some(s) => FtwTarget::parse_or(s, host),
            None => host,
        };
        let build_type: FtwBuildType = match second_arg {
            Some(s) => FtwBuildType::parse(s),
            None => FtwBuildType::Debug,
        };
        Some(FtwCommand::Build { target, build_type })
    } else if str_eq(subcommand, "export") {
        let target: FtwTarget = match first_arg {
            Some(s) => FtwTarget::parse_or(s, host),
            None => host,
        };
        let build_type: FtwBuildType = match second_arg {
            Some(s) => FtwBuildType::parse(s),
            None => FtwBuildType::Debug,
        };
        Some(FtwCommand::Export { target, build_type })
    } else {
        None
    }
}

impl PartialEq for FtwCommand {
    fn eq(&self, other: &FtwCommand) -> (r: bool) {
        match (self, other) {
            (
                FtwCommand::New { project_name: a, template: ta },
                FtwCommand::New { project_name: b, template: tb },
            ) => str_eq(a.as_str(), b.as_str()) && ta == tb,
            (
                FtwCommand::Class { class_name: a, node_type: na },
                FtwCommand::Class { class_name: b, node_type: nb },
            ) => str_eq(a.as_str(), b.as_str()) && na == nb,
            (
                FtwCommand::Singleton { class_name: a },
                FtwCommand::Singleton { class_name: b },
            ) => str_eq(a.as_str(), b.as_str()),
            (
                FtwCommand::Run { machine_type: a },
                FtwCommand::Run { machine_type: b },
            ) => a == b,
            (
                FtwCommand::Build { target: ta, build_type: ba },
                FtwCommand::Build { target: tb, build_type: bb },
            ) => ta == tb && ba == bb,
            (
                FtwCommand::Export { target: ta, build_type: ba },
                FtwCommand::Export { target: tb, build_type: bb },
            ) => ta == tb && ba == bb,
            _ => false,
        }
    }
}

impl vstd::std_specs::cmp::PartialEqSpecImpl for FtwCommand {
    open spec fn obeys_eq_spec() -> bool {
        true
    }

    open spec fn eq_spec(&self, other: &FtwCommand) -> bool {
        self.spec_eq(other)
    }
}

} // verus!

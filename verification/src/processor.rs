use crate::ftw_build_type::FtwBuildType;
use crate::ftw_command::FtwCommand;
use crate::ftw_error::FtwError;
use crate::ftw_machine_type::FtwMachineType;
use crate::ftw_node_type::FtwNodeType;
use crate::ftw_success::FtwSuccess;
use crate::ftw_target::FtwTarget;
use crate::ftw_template::FtwTemplate;
use vstd::prelude::*;

verus! {

/// The views of a sequence of strings, element for element.
pub open spec fn seq_views(v: Seq<String>) -> Seq<Seq<char>> {
    v.map_values(|s: String| s@)
}

/// Where a new project is scaffolded: a directory named after the
/// project under the current directory.
pub open spec fn spec_destination(project_name: Seq<char>) -> Seq<char> {
    "./"@ + project_name
}

/// Where a generated class file is written.
pub open spec fn spec_class_file_path(class_name: Seq<char>) -> Seq<char> {
    "godot/"@ + class_name + ".gd"@
}

/// The boilerplate written for a generated class: an engine script
/// named after the class and inheriting the chosen node kind.
pub open spec fn spec_class_contents(class_name: Seq<char>, node_type: FtwNodeType) -> Seq<char> {
    "class_name "@ + class_name + "\nextends "@ + node_type.spec_name()
        + "\n\n\nfunc _ready():\n\tpass\n"@
}

/// The stanza appended to the project configuration to register a
/// class as autoloaded.
pub open spec fn spec_autoload_stanza(class_name: Seq<char>) -> Seq<char> {
    "\n[autoload]\n\n"@ + class_name + "=\"*res://"@ + class_name + ".gd\"\n"@
}

/// The arguments handed to the native compiler toolchain for one
/// (target, build type) pair.
pub open spec fn spec_build_args(target: FtwTarget, build_type: FtwBuildType) -> Seq<Seq<char>> {
    let base = seq!["build"@, "--target"@, target.spec_cli_arg()];
    if build_type is Release {
        base.push("--release"@)
    } else {
        base
    }
}

/// Where the toolchain leaves the compiled library for one (target,
/// build type) pair.
pub open spec fn spec_artifact_path(target: FtwTarget, build_type: FtwBuildType) -> Seq<char> {
    "target/"@ + target.spec_cli_arg() + "/"@ + build_type.spec_name() + "/"@
        + target.spec_lib_prefix() + "game."@ + target.spec_lib_ext()
}

/// The flags handed to the engine binary for a debug run in the given
/// machine mode: a desktop run opens a window, a server run stays
/// headless.
pub open spec fn spec_run_args(machine_type: FtwMachineType) -> Seq<Seq<char>> {
    match machine_type {
        FtwMachineType::Desktop => seq!["-d"@],
        FtwMachineType::Server => seq!["-d"@, "--no-window"@],
    }
}

/// Where the engine leaves the exported, distributable package for one
/// (target, build type) pair.
pub open spec fn spec_package_path(target: FtwTarget, build_type: FtwBuildType) -> Seq<char> {
    "bin/"@ + target.spec_name() + "/game-"@ + build_type.spec_name() + "."@
        + target.spec_app_ext()
}

/// The arguments handed to the engine binary for an export: the
/// export flag matching the profile, the target's export-preset name,
/// and the package destination.
pub open spec fn spec_export_args(target: FtwTarget, build_type: FtwBuildType) -> Seq<Seq<char>> {
    seq![
        if build_type is Release {
            "--export"@
        } else {
            "--export-debug"@
        },
        target.spec_export_name(),
        spec_package_path(target, build_type),
    ]
}

/// What the dispatch step observes of the workspace before deciding:
/// whether the scaffold destination and the generated class file
/// already exist, the project configuration if it could be read, and
/// whether the build artifact of the (target, build type) pair at hand
/// is present.
pub struct WorkspaceFacts {
    pub destination_exists: bool,
    pub class_file_exists: bool,
    pub config_contents: Option<String>,
    pub artifact_exists: bool,
}

/// The one outside step a dispatched command asks for. The caller
/// performs it and reports the outcome back through
/// `FtwCommand::interpret_outcome`.
#[derive(Debug)]
pub enum FtwAction {
    /// Materialise a project scaffold at the destination from the
    /// given template.
    Scaffold { destination: String, template: FtwTemplate },
    /// Write one generated file.
    WriteClassFile { path: String, contents: String },
    /// Write one generated file and replace the project configuration
    /// with the patched text.
    WriteClassFileAndConfig {
        path: String,
        contents: String,
        config_path: String,
        new_config: String,
    },
    /// Launch the engine binary with the given flags.
    RunEngine { args: Vec<String> },
    /// Invoke the native compiler toolchain with the given arguments;
    /// on success the library stands at `artifact`.
    RunToolchain { args: Vec<String>, artifact: String },
    /// Invoke the engine's export step with the given arguments; on
    /// success the package stands at `package`.
    RunExport { args: Vec<String>, package: String },
}

/// Resolves the toolchain arguments for one (target, build type) pair.
pub fn build_args(target: FtwTarget, build_type: FtwBuildType) -> (r: Vec<String>)
    ensures
        seq_views(r@) == spec_build_args(target, build_type),
{
    let mut args: Vec<String> = Vec::new();
    args.push("build".to_owned());
    args.push("--target".to_owned());
    args.push(target.to_cli_arg());
    if build_type == FtwBuildType::Release {
        args.push("--release".to_owned());
    }
    proof {
        assert(seq_views(args@) =~= spec_build_args(target, build_type));
    }
    args
}

/// Resolves the artifact path for one (target, build type) pair.
pub fn artifact_path(target: FtwTarget, build_type: FtwBuildType) -> (r: String)
    ensures
        r@ == spec_artifact_path(target, build_type),
{
    "target/".to_owned().concat(target.to_cli_arg().as_str()).concat("/").concat(
        build_type.name().as_str(),
    ).concat("/").concat(target.lib_prefix().as_str()).concat("game.").concat(
        target.lib_ext().as_str(),
    )
}

/// Resolves the engine flags for a debug run in the given machine
/// mode.
pub fn run_args(machine_type: FtwMachineType) -> (r: Vec<String>)
    ensures
        seq_views(r@) == spec_run_args(machine_type),
{
    let mut args: Vec<String> = Vec::new();
    args.push("-d".to_owned());
    if machine_type == FtwMachineType::Server {
        args.push("--no-window".to_owned());
    }
    proof {
        assert(seq_views(args@) =~= spec_run_args(machine_type));
    }
    args
}

/// Resolves the package path for one (target, build type) pair.
pub fn package_path(target: FtwTarget, build_type: FtwBuildType) -> (r: String)
    ensures
        r@ == spec_package_path(target, build_type),
{
    "bin/".to_owned().concat(target.name().as_str()).concat("/game-").concat(
        build_type.name().as_str(),
    ).concat(".").concat(target.app_ext().as_str())
}

/// Resolves the engine's export arguments for one (target, build
/// type) pair.
pub fn export_args(target: FtwTarget, build_type: FtwBuildType) -> (r: Vec<String>)
    ensures
        seq_views(r@) == spec_export_args(target, build_type),
{
    let mut args: Vec<String> = Vec::new();
    if build_type == FtwBuildType::Release {
        args.push("--export".to_owned());
    } else {
        args.push("--export-debug".to_owned());
    }
    args.push(target.to_export_name());
    args.push(package_path(target, build_type));
    proof {
        assert(seq_views(args@) =~= spec_export_args(target, build_type));
    }
    args
}

/// Renders the path of a generated class file.
pub fn class_file_path(class_name: &str) -> (r: String)
    ensures
        r@ == spec_class_file_path(class_name@),
{
    "godot/".to_owned().concat(class_name).concat(".gd")
}

/// Renders the boilerplate for a generated class inheriting the given
/// node kind.
pub fn class_contents(class_name: &str, node_type: FtwNodeType) -> (r: String)
    ensures
        r@ == spec_class_contents(class_name@, node_type),
{
    "class_name ".to_owned().concat(class_name).concat("\nextends ").concat(
        node_type.name().as_str(),
    ).concat("\n\n\nfunc _ready():\n\tpass\n")
}

/// Appends the autoload registration for a class to the project
/// configuration.
pub fn register_autoload(config: &String, class_name: &str) -> (r: String)
    ensures
        r@ == config@ + spec_autoload_stanza(class_name@),
{
    config.clone().concat("\n[autoload]\n\n").concat(class_name).concat("=\"*res://").concat(
        class_name,
    ).concat(".gd\"\n")
}

impl FtwCommand {
    /// The single dispatch point: decides, from the command and what
    /// is observed of the workspace, either the one outside step to
    /// perform or the failure to report — without performing anything
    /// itself.
    ///
    /// A new project is refused if its destination already exists; a
    /// generated class is refused if its file already exists; a
    /// singleton further needs the project configuration to be
    /// readable; and an export is refused, before the engine's export
    /// step is ever reached, unless the artifact of a prior build for
    /// the identical (target, build type) pair is present.
    pub fn process(&self, facts: &WorkspaceFacts) -> (r: Result<FtwAction, FtwError>)
        ensures
            (self matches FtwCommand::New { project_name, template } ==> (
            if facts.destination_exists {
                r matches Err(e) && e matches FtwError::TargetExists { path } && path@
                    == spec_destination(project_name@)
            } else {
                r matches Ok(a) && a matches FtwAction::Scaffold { destination, template: t }
                    && destination@ == spec_destination(project_name@) && t.spec_eq(template)
            })),
            (self matches FtwCommand::Class { class_name, node_type } ==> (
            if facts.class_file_exists {
                r matches Err(e) && e matches FtwError::FileWrite { path } && path@
                    == spec_class_file_path(class_name@)
            } else {
                r matches Ok(a) && a matches FtwAction::WriteClassFile { path, contents }
                    && path@ == spec_class_file_path(class_name@) && contents@
                    == spec_class_contents(class_name@, *node_type)
            })),
            (self matches FtwCommand::Singleton { class_name } ==> (
            match facts.config_contents {
                None => r matches Err(e) && e is Configuration,
                Some(cfg) => if facts.class_file_exists {
                    r matches Err(e) && e matches FtwError::FileWrite { path } && path@
                        == spec_class_file_path(class_name@)
                } else {
                    r matches Ok(a) && a matches FtwAction::WriteClassFileAndConfig {
                        path,
                        contents,
                        config_path,
                        new_config,
                    } && path@ == spec_class_file_path(class_name@) && contents@
                        == spec_class_contents(class_name@, FtwNodeType::Node) && config_path@
                        == "godot/project.godot"@ && new_config@ == cfg@ + spec_autoload_stanza(
                        class_name@,
                    )
                },
            })),
            (self matches FtwCommand::Run { machine_type } ==> (r matches Ok(a)
                && a matches FtwAction::RunEngine { args } && seq_views(args@) == spec_run_args(
                *machine_type,
            ))),
            (self matches FtwCommand::Build { target, build_type } ==> (r matches Ok(a)
                && a matches FtwAction::RunToolchain { args, artifact } && seq_views(args@)
                == spec_build_args(*target, *build_type) && artifact@ == spec_artifact_path(
                *target,
                *build_type,
            ))),
            (self matches FtwCommand::Export { target, build_type } ==> (
            if !facts.artifact_exists {
                r matches Err(e) && e matches FtwError::Dependency { artifact } && artifact@
                    == spec_artifact_path(*target, *build_type)
            } else {
                r matches Ok(a) && a matches FtwAction::RunExport { args, package }
                    && seq_views(args@) == spec_export_args(*target, *build_type) && package@
                    == spec_package_path(*target, *build_type)
            })),
    {
        match self {
            FtwCommand::New { project_name, template } => {
                let destination: String = "./".to_owned().concat(project_name.as_str());
                if facts.destination_exists {
                    Err(FtwError::TargetExists { path: destination })
                } else {
                    Ok(FtwAction::Scaffold { destination, template: template.clone() })
                }
            },
            FtwCommand::Class { class_name, node_type } => {
                let path: String = class_file_path(class_name.as_str());
                if facts.class_file_exists {
                    Err(FtwError::FileWrite { path })
                } else {
                    let contents: String = class_contents(class_name.as_str(), *node_type);
                    Ok(FtwAction::WriteClassFile { path, contents })
                }
            },
            FtwCommand::Singleton { class_name } => {
                match &facts.config_contents {
                    None => Err(FtwError::Configuration),
                    Some(cfg) => {
                        let path: String = class_file_path(class_name.as_str());
                        if facts.class_file_exists {
                            Err(FtwError::FileWrite { path })
                        } else {
                            let contents: String = class_contents(
                                class_name.as_str(),
                                FtwNodeType::Node,
                            );
                            let new_config: String = register_autoload(cfg, class_name.as_str());
                            Ok(
                                FtwAction::WriteClassFileAndConfig {
                                    path,
                                    contents,
                                    config_path: "godot/project.godot".to_owned(),
                                    new_config,
                                },
                            )
                        }
                    },
                }
            },
            FtwCommand::Run { machine_type } => {
                Ok(FtwAction::RunEngine { args: run_args(*machine_type) })
            },
            FtwCommand::Build { target, build_type } => {
                Ok(
                    FtwAction::RunToolchain {
                        args: build_args(*target, *build_type),
                        artifact: artifact_path(*target, *build_type),
                    },
                )
            },
            FtwCommand::Export { target, build_type } => {
                if !facts.artifact_exists {
                    Err(FtwError::Dependency { artifact: artifact_path(*target, *build_type) })
                } else {
                    Ok(
                        FtwAction::RunExport {
                            args: export_args(*target, *build_type),
                            package: package_path(*target, *build_type),
                        },
                    )
                }
            },
        }
    }

    /// Turns the outcome of the performed step — did it succeed, and
    /// what did it print — into the report of this command: the
    /// confirmation carrying what was produced, or the failure
    /// carrying the captured output. Stated for every value the
    /// outside step can come back with.
    pub fn interpret_outcome(&self, succeeded: bool, output: &str) -> (r: Result<
        FtwSuccess,
        FtwError,
    >)
        ensures
            (self matches FtwCommand::New { project_name, template } ==> (
            if succeeded {
                r matches Ok(s) && s matches FtwSuccess::New { project_name: p } && p@
                    == project_name@
            } else if template is Custom {
                r matches Err(e) && e matches FtwError::TemplateFetch { message } && message@
                    == output@
            } else {
                r matches Err(e) && e matches FtwError::FileWrite { path } && path@
                    == spec_destination(project_name@)
            })),
            (self matches FtwCommand::Class { class_name, node_type } ==> (
            if succeeded {
                r matches Ok(s) && s matches FtwSuccess::Class { class_name: c } && c@
                    == class_name@
            } else {
                r matches Err(e) && e matches FtwError::FileWrite { path } && path@
                    == spec_class_file_path(class_name@)
            })),
            (self matches FtwCommand::Singleton { class_name } ==> (
            if succeeded {
                r matches Ok(s) && s matches FtwSuccess::Singleton { class_name: c } && c@
                    == class_name@
            } else {
                r matches Err(e) && e matches FtwError::FileWrite { path } && path@
                    == spec_class_file_path(class_name@)
            })),
            (self matches FtwCommand::Run { machine_type } ==> (
            if succeeded {
                r matches Ok(s) && s is Run
            } else {
                r matches Err(e) && e matches FtwError::Execution { message } && message@
                    == output@
            })),
            (self matches FtwCommand::Build { target, build_type } ==> (
            if succeeded {
                r matches Ok(s) && s matches FtwSuccess::Build { artifact } && artifact@
                    == spec_artifact_path(*target, *build_type)
            } else {
                r matches Err(e) && e matches FtwError::Build { output: o } && o@ == output@
            })),
            (self matches FtwCommand::Export { target, build_type } ==> (
            if succeeded {
                r matches Ok(s) && s matches FtwSuccess::Export { package } && package@
                    == spec_package_path(*target, *build_type)
            } else {
                r matches Err(e) && e matches FtwError::Export { message } && message@ == output@
            })),
    {
        match self {
            FtwCommand::New { project_name, template } => {
                if succeeded {
                    Ok(FtwSuccess::New { project_name: project_name.clone() })
                } else {
                    match template {
                        FtwTemplate::Custom { .. } => Err(
                            FtwError::TemplateFetch { message: output.to_owned() },
                        ),
                        FtwTemplate::Default => Err(
                            FtwError::FileWrite {
                                path: "./".to_owned().concat(project_name.as_str()),
                            },
                        ),
                    }
                }
            },
            FtwCommand::Class { class_name, .. } => {
                if succeeded {
                    Ok(FtwSuccess::Class { class_name: class_name.clone() })
                } else {
                    Err(FtwError::FileWrite { path: class_file_path(class_name.as_str()) })
                }
            },
            FtwCommand::Singleton { class_name } => {
                if succeeded {
                    Ok(FtwSuccess::Singleton { class_name: class_name.clone() })
                } else {
                    Err(FtwError::FileWrite { path: class_file_path(class_name.as_str()) })
                }
            },
            FtwCommand::Run { .. } => {
                if succeeded {
                    Ok(FtwSuccess::Run)
                } else {
                    Err(FtwError::Execution { message: output.to_owned() })
                }
            },
            FtwCommand::Build { target, build_type } => {
                if succeeded {
                    Ok(FtwSuccess::Build { artifact: artifact_path(*target, *build_type) })
                } else {
                    Err(FtwError::Build { output: output.to_owned() })
                }
            },
            FtwCommand::Export { target, build_type } => {
                if succeeded {
                    Ok(FtwSuccess::Export { package: package_path(*target, *build_type) })
                } else {
                    Err(FtwError::Export { message: output.to_owned() })
                }
            },
        }
    }
}

/// Resolving the same (target, build type) pair twice yields identical
/// toolchain argument sets, artifact paths, export argument sets and
/// package paths: resolution is a pure function of the pair, with no
/// hidden state.
pub proof fn lemma_resolution_idempotent(
    target1: FtwTarget,
    build_type1: FtwBuildType,
    target2: FtwTarget,
    build_type2: FtwBuildType,
)
    requires
        target1 == target2,
        build_type1 == build_type2,
    ensures
        spec_build_args(target1, build_type1) == spec_build_args(target2, build_type2),
        spec_artifact_path(target1, build_type1) == spec_artifact_path(target2, build_type2),
        spec_export_args(target1, build_type1) == spec_export_args(target2, build_type2),
        spec_package_path(target1, build_type1) == spec_package_path(target2, build_type2),
{
}

} // verus!

use ftw::ftw_build_type::FtwBuildType;
use ftw::ftw_command::{parse_command, FtwCommand};
use ftw::ftw_machine_type::FtwMachineType;
use ftw::ftw_node_type::FtwNodeType;
use ftw::ftw_target::FtwTarget;
use ftw::ftw_template::FtwTemplate;

const HOST: FtwTarget = FtwTarget::LinuxX86_64;

#[test]
fn test_parse_matches_new() {
    let project_name = "my-awesome-game";
    let command = parse_command("new", Some(project_name), Some("default"), HOST).unwrap();
    let cmd = FtwCommand::New {
        project_name: project_name.to_string(),
        template: FtwTemplate::default(),
    };
    assert_eq!(command, cmd);
}

#[test]
fn test_parse_matches_new_no_template() {
    let project_name = "my-awesome-game";
    let command = parse_command("new", Some(project_name), None, HOST).unwrap();
    let cmd = FtwCommand::New {
        project_name: project_name.to_string(),
        template: FtwTemplate::default(),
    };
    assert_eq!(command, cmd);
}

#[test]
fn test_parse_matches_new_custom_template() {
    let project_name = "my-awesome-game";
    let git_url = "/path/to/custom/template";
    let command = parse_command("new", Some(project_name), Some(git_url), HOST).unwrap();
    let cmd = FtwCommand::New {
        project_name: project_name.to_string(),
        template: FtwTemplate::Custom {
            git_url: git_url.to_string(),
        },
    };
    assert_eq!(command, cmd);
}

#[test]
fn test_parse_matches_class() {
    let class_name = "IronMan";
    let command = parse_command("class", Some(class_name), Some("Area2D"), HOST).unwrap();
    let cmd = FtwCommand::Class {
        class_name: class_name.to_string(),
        node_type: FtwNodeType::Area2D,
    };
    assert_eq!(command, cmd);
}

#[test]
fn test_parse_matches_class_no_node_type() {
    let class_name = "IronMan";
    let command = parse_command("class", Some(class_name), None, HOST).unwrap();
    let cmd = FtwCommand::Class {
        class_name: class_name.to_string(),
        node_type: FtwNodeType::Node,
    };
    assert_eq!(command, cmd);
}

#[test]
fn test_parse_matches_singleton() {
    let class_name = "Network";
    let command = parse_command("singleton", Some(class_name), None, HOST).unwrap();
    let cmd = FtwCommand::Singleton {
        class_name: class_name.to_string(),
    };
    assert_eq!(command, cmd);
}

#[test]
fn test_parse_matches_run_desktop() {
    let command = parse_command("run", Some("desktop"), None, HOST).unwrap();
    let cmd = FtwCommand::Run {
        machine_type: FtwMachineType::Desktop,
    };
    assert_eq!(command, cmd);
}

#[test]
fn test_parse_matches_run_server() {
    let command = parse_command("run", Some("server"), None, HOST).unwrap();
    let cmd = FtwCommand::Run {
        machine_type: FtwMachineType::Server,
    };
    assert_eq!(command, cmd);
}

#[test]
fn test_parse_matches_run_no_machine_type() {
    let command = parse_command("run", None, None, HOST).unwrap();
    let cmd = FtwCommand::Run {
        machine_type: FtwMachineType::Desktop,
    };
    assert_eq!(command, cmd);
}

#[test]
fn test_parse_matches_build() {
    let command = parse_command("build", Some("linux-x86_64"), Some("debug"), HOST).unwrap();
    let cmd = FtwCommand::Build {
        target: FtwTarget::LinuxX86_64,
        build_type: FtwBuildType::Debug,
    };
    assert_eq!(command, cmd);
}

#[test]
fn test_parse_matches_build_no_build_type() {
    let command = parse_command("build", Some("linux-x86_64"), None, HOST).unwrap();
    let cmd = FtwCommand::Build {
        target: FtwTarget::LinuxX86_64,
        build_type: FtwBuildType::Debug,
    };
    assert_eq!(command, cmd);
}

#[test]
fn test_parse_matches_build_no_target_and_no_build_type() {
    let host = FtwTarget::WindowsX86_64;
    let command = parse_command("build", None, None, host).unwrap();
    let cmd = FtwCommand::Build {
        target: host,
        build_type: FtwBuildType::Debug,
    };
    assert_eq!(command, cmd);
}

#[test]
fn test_parse_matches_export() {
    let command = parse_command("export", Some("linux-x86_64"), Some("debug"), HOST).unwrap();
    let cmd = FtwCommand::Export {
        target: FtwTarget::LinuxX86_64,
        build_type: FtwBuildType::Debug,
    };
    assert_eq!(command, cmd);
}

#[test]
fn test_parse_matches_export_no_build_type() {
    let command = parse_command("export", Some("linux-x86_64"), None, HOST).unwrap();
    let cmd = FtwCommand::Export {
        target: FtwTarget::LinuxX86_64,
        build_type: FtwBuildType::Debug,
    };
    assert_eq!(command, cmd);
}

#[test]
fn test_parse_matches_export_no_target_and_no_build_type() {
    let host = FtwTarget::MacOsX86_64;
    let command = parse_command("export", None, None, host).unwrap();
    let cmd = FtwCommand::Export {
        target: host,
        build_type: FtwBuildType::Debug,
    };
    assert_eq!(command, cmd);
}

#[test]
fn unsupported_subcommand_yields_no_command() {
    assert!(parse_command("frobnicate", Some("a"), Some("b"), HOST).is_none());
    assert!(parse_command("", None, None, HOST).is_none());
}

#[test]
fn supported_subcommands_accept_arbitrary_argument_text() {
    // Construction is total: whatever text stands in the optional
    // arguments, every supported subcommand yields a command.
    for sub in ["new", "class", "singleton", "run", "build", "export"] {
        assert!(parse_command(sub, Some("!! not ~ a keyword ??"), Some(""), HOST).is_some());
        assert!(parse_command(sub, None, None, HOST).is_some());
    }
}

use ftw::ftw_build_type::FtwBuildType;
use ftw::ftw_machine_type::FtwMachineType;
use ftw::ftw_node_type::FtwNodeType;
use ftw::ftw_target::FtwTarget;
use ftw::ftw_template::FtwTemplate;
use ftw::platform::target_for_host;

#[test]
fn build_type_keywords_parse_to_their_profile() {
    assert_eq!(FtwBuildType::parse("debug"), FtwBuildType::Debug);
    assert_eq!(FtwBuildType::parse("release"), FtwBuildType::Release);
}

#[test]
fn build_type_falls_back_to_debug_on_unrecognised_text() {
    assert_eq!(FtwBuildType::parse(""), FtwBuildType::Debug);
    assert_eq!(FtwBuildType::parse("Release"), FtwBuildType::Debug);
    assert_eq!(FtwBuildType::parse("optimized"), FtwBuildType::Debug);
}

#[test]
fn machine_type_keywords_parse_to_their_mode() {
    assert_eq!(FtwMachineType::parse("desktop"), FtwMachineType::Desktop);
    assert_eq!(FtwMachineType::parse("server"), FtwMachineType::Server);
}

#[test]
fn machine_type_falls_back_to_desktop_on_unrecognised_text() {
    assert_eq!(FtwMachineType::parse(""), FtwMachineType::Desktop);
    assert_eq!(FtwMachineType::parse("laptop"), FtwMachineType::Desktop);
}

#[test]
fn node_type_keywords_parse_to_their_kind() {
    assert_eq!(FtwNodeType::parse("Node"), FtwNodeType::Node);
    assert_eq!(FtwNodeType::parse("Area2D"), FtwNodeType::Area2D);
    assert_eq!(FtwNodeType::parse("KinematicBody2D"), FtwNodeType::KinematicBody2D);
    assert_eq!(FtwNodeType::parse("Timer"), FtwNodeType::Timer);
}

#[test]
fn node_type_falls_back_to_node_on_unrecognised_text() {
    assert_eq!(FtwNodeType::parse(""), FtwNodeType::Node);
    assert_eq!(FtwNodeType::parse("area2d"), FtwNodeType::Node);
    assert_eq!(FtwNodeType::parse("Starship"), FtwNodeType::Node);
}

#[test]
fn target_keywords_parse_to_their_target() {
    let fallback = FtwTarget::LinuxX86_64;
    assert_eq!(FtwTarget::parse_or("linux-x86_64", fallback), FtwTarget::LinuxX86_64);
    assert_eq!(FtwTarget::parse_or("windows-x86_64", fallback), FtwTarget::WindowsX86_64);
    assert_eq!(FtwTarget::parse_or("osx-x86_64", fallback), FtwTarget::MacOsX86_64);
    assert_eq!(FtwTarget::parse_or("android", fallback), FtwTarget::Android);
    assert_eq!(FtwTarget::parse_or("ios", fallback), FtwTarget::Ios);
    assert_eq!(FtwTarget::parse_or("html5", fallback), FtwTarget::Html5);
}

#[test]
fn target_falls_back_to_given_target_on_unrecognised_text() {
    assert_eq!(
        FtwTarget::parse_or("solaris-sparc", FtwTarget::MacOsX86_64),
        FtwTarget::MacOsX86_64
    );
    assert_eq!(FtwTarget::parse_or("", FtwTarget::Android), FtwTarget::Android);
}

#[test]
fn target_names_round_trip_through_parse() {
    let fallback = FtwTarget::Html5;
    for target in [
        FtwTarget::LinuxX86_64,
        FtwTarget::WindowsX86_64,
        FtwTarget::MacOsX86_64,
        FtwTarget::Android,
        FtwTarget::Ios,
        FtwTarget::Html5,
    ] {
        assert_eq!(FtwTarget::parse_or(target.name().as_str(), fallback), target);
    }
}

#[test]
fn template_keyword_selects_the_bundled_default() {
    assert_eq!(FtwTemplate::parse("default"), FtwTemplate::Default);
}

#[test]
fn template_treats_any_other_text_as_custom_git_url() {
    assert_eq!(
        FtwTemplate::parse("https://example.invalid/skeleton.git"),
        FtwTemplate::Custom {
            git_url: "https://example.invalid/skeleton.git".to_string(),
        }
    );
    assert_eq!(
        FtwTemplate::parse(""),
        FtwTemplate::Custom {
            git_url: "".to_string(),
        }
    );
}

#[test]
fn host_platform_resolves_to_canonical_target() {
    assert_eq!(target_for_host("linux", "x86_64"), FtwTarget::LinuxX86_64);
    assert_eq!(target_for_host("windows", "x86_64"), FtwTarget::WindowsX86_64);
    assert_eq!(target_for_host("macos", "x86_64"), FtwTarget::MacOsX86_64);
    assert_eq!(target_for_host("android", "aarch64"), FtwTarget::Android);
    assert_eq!(target_for_host("ios", "aarch64"), FtwTarget::Ios);
}

#[test]
fn unknown_host_resolves_to_linux_desktop_target() {
    assert_eq!(target_for_host("plan9", "mips"), FtwTarget::LinuxX86_64);
}

#[test]
fn target_table_renders_triple_prefix_extension_and_preset() {
    let t = FtwTarget::WindowsX86_64;
    assert_eq!(t.to_cli_arg(), "x86_64-pc-windows-msvc");
    assert_eq!(t.lib_prefix(), "");
    assert_eq!(t.lib_ext(), "dll");
    assert_eq!(t.app_ext(), "exe");
    assert_eq!(t.to_export_name(), "Windows Desktop");
    let t = FtwTarget::LinuxX86_64;
    assert_eq!(t.to_cli_arg(), "x86_64-unknown-linux-gnu");
    assert_eq!(t.lib_prefix(), "lib");
    assert_eq!(t.lib_ext(), "so");
    assert_eq!(t.app_ext(), "x86_64");
    assert_eq!(t.to_export_name(), "Linux/X11");
}

#[test]
fn defaults_match_their_documented_fallbacks() {
    assert_eq!(FtwBuildType::default(), FtwBuildType::Debug);
    assert_eq!(FtwMachineType::default(), FtwMachineType::Desktop);
    assert_eq!(FtwNodeType::default(), FtwNodeType::Node);
    assert_eq!(FtwTemplate::default(), FtwTemplate::Default);
}

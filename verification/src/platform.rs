use crate::ftw_target::FtwTarget;
use crate::util::str_eq;
use vstd::prelude::*;

verus! {

/// The canonical target for a host described by its operating-system
/// and architecture names (as the toolchain reports them). Hosts this
/// table does not recognise resolve to the Linux desktop target.
pub open spec fn spec_target_for_host(os: Seq<char>, arch: Seq<char>) -> FtwTarget {
    if os == "windows"@ && arch == "x86_64"@ {
        FtwTarget::WindowsX86_64
    } else if os == "macos"@ && arch == "x86_64"@ {
        FtwTarget::MacOsX86_64
    } else if os == "android"@ {
        FtwTarget::Android
    } else if os == "ios"@ {
        FtwTarget::Ios
    } else {
        FtwTarget::LinuxX86_64
    }
}

/// Pure, deterministic platform resolution: renders the host's
/// operating system and architecture as the canonical target used
/// wherever a target is left unspecified.
pub fn target_for_host(os: &str, arch: &str) -> (t: FtwTarget)
    ensures
        t == spec_target_for_host(os@, arch@),
{
    if str_eq(os, "windows") && str_eq(arch, "x86_64") {
        FtwTarget::WindowsX86_64
    } else if str_eq(os, "macos") && str_eq(arch, "x86_64") {
        FtwTarget::MacOsX86_64
    } else if str_eq(os, "android") {
        FtwTarget::Android
    } else if str_eq(os, "ios") {
        FtwTarget::Ios
    } else {
        FtwTarget::LinuxX86_64
    }
}

} // verus!

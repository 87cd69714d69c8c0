use crate::util::str_eq;
use vstd::prelude::*;

verus! {

/// Supported platform/architecture combination for compiling and
/// exporting the native library. Each target carries, through the
/// methods below, a toolchain triple, an artifact prefix/extension
/// convention, and an engine export-preset name.
#[derive(Clone, Copy, Debug, PartialEq, Eq, Structural)]
pub enum FtwTarget {
    LinuxX86_64,
    WindowsX86_64,
    MacOsX86_64,
    Android,
    Ios,
    Html5,
}

/// Whether the text is one of the recognised target names.
pub open spec fn is_target_keyword(s: Seq<char>) -> bool {
    ||| s == "linux-x86_64"@
    ||| s == "windows-x86_64"@
    ||| s == "osx-x86_64"@
    ||| s == "android"@
    ||| s == "ios"@
    ||| s == "html5"@
}

/// What parsing a piece of text as a target yields: each recognised
/// platform name selects its target; anything else falls back to the
/// given target (in practice the detected host platform), never an
/// error.
pub open spec fn spec_parse_target(s: Seq<char>, fallback: FtwTarget) -> FtwTarget {
    if s == "linux-x86_64"@ {
        FtwTarget::LinuxX86_64
    } else if s == "windows-x86_64"@ {
        FtwTarget::WindowsX86_64
    } else if s == "osx-x86_64"@ {
        FtwTarget::MacOsX86_64
    } else if s == "android"@ {
        FtwTarget::Android
    } else if s == "ios"@ {
        FtwTarget::Ios
    } else if s == "html5"@ {
        FtwTarget::Html5
    } else {
        fallback
    }
}

impl FtwTarget {
    /// Total parse with fallback: unrecognised text yields the given
    /// fallback target.
    pub fn parse_or(s: &str, fallback: FtwTarget) -> (t: FtwTarget)
        ensures
            t == spec_parse_target(s@, fallback),
    {
        if str_eq(s, "linux-x86_64") {
            FtwTarget::LinuxX86_64
        } else if str_eq(s, "windows-x86_64") {
            FtwTarget::WindowsX86_64
        } else if str_eq(s, "osx-x86_64") {
            FtwTarget::MacOsX86_64
        } else if str_eq(s, "android") {
            FtwTarget::Android
        } else if str_eq(s, "ios") {
            FtwTarget::Ios
        } else if str_eq(s, "html5") {
            FtwTarget::Html5
        } else {
            fallback
        }
    }

    /// The canonical platform name, as accepted by `parse_or` and used
    /// in artifact paths and messages.
    pub fn name(&self) -> (r: String)
        ensures
            r@ == self.spec_name(),
    {
        match self {
            FtwTarget::LinuxX86_64 => "linux-x86_64".to_owned(),
            FtwTarget::WindowsX86_64 => "windows-x86_64".to_owned(),
            FtwTarget::MacOsX86_64 => "osx-x86_64".to_owned(),
            FtwTarget::Android => "android".to_owned(),
            FtwTarget::Ios => "ios".to_owned(),
            FtwTarget::Html5 => "html5".to_owned(),
        }
    }

    /// Spec-level canonical platform name.
    pub open spec fn spec_name(&self) -> Seq<char> {
        match self {
            FtwTarget::LinuxX86_64 => "linux-x86_64"@,
            FtwTarget::WindowsX86_64 => "windows-x86_64"@,
            FtwTarget::MacOsX86_64 => "osx-x86_64"@,
            FtwTarget::Android => "android"@,
            FtwTarget::Ios => "ios"@,
            FtwTarget::Html5 => "html5"@,
        }
    }

    /// The toolchain triple handed to the native compiler when
    /// cross-compiling for this target.
    pub fn to_cli_arg(&self) -> (r: String)
        ensures
            r@ == self.spec_cli_arg(),
    {
        match self {
            FtwTarget::LinuxX86_64 => "x86_64-unknown-linux-gnu".to_owned(),
            FtwTarget::WindowsX86_64 => "x86_64-pc-windows-msvc".to_owned(),
            FtwTarget::MacOsX86_64 => "x86_64-apple-darwin".to_owned(),
            FtwTarget::Android => "aarch64-linux-android".to_owned(),
            FtwTarget::Ios => "aarch64-apple-ios".to_owned(),
            FtwTarget::Html5 => "wasm32-unknown-emscripten".to_owned(),
        }
    }

    /// Spec-level toolchain triple.
    pub open spec fn spec_cli_arg(&self) -> Seq<char> {
        match self {
            FtwTarget::LinuxX86_64 => "x86_64-unknown-linux-gnu"@,
            FtwTarget::WindowsX86_64 => "x86_64-pc-windows-msvc"@,
            FtwTarget::MacOsX86_64 => "x86_64-apple-darwin"@,
            FtwTarget::Android => "aarch64-linux-android"@,
            FtwTarget::Ios => "aarch64-apple-ios"@,
            FtwTarget::Html5 => "wasm32-unknown-emscripten"@,
        }
    }

    /// The file-name prefix of a compiled library artifact on this
    /// target.
    pub fn lib_prefix(&self) -> (r: String)
        ensures
            r@ == self.spec_lib_prefix(),
    {
        match self {
            FtwTarget::WindowsX86_64 => "".to_owned(),
            _ => "lib".to_owned(),
        }
    }

    /// Spec-level library file-name prefix.
    pub open spec fn spec_lib_prefix(&self) -> Seq<char> {
        match self {
            FtwTarget::WindowsX86_64 => ""@,
            _ => "lib"@,
        }
    }

    /// The file-name extension of a compiled library artifact on this
    /// target.
    pub fn lib_ext(&self) -> (r: String)
        ensures
            r@ == self.spec_lib_ext(),
    {
        match self {
            FtwTarget::LinuxX86_64 => "so".to_owned(),
            FtwTarget::WindowsX86_64 => "dll".to_owned(),
            FtwTarget::MacOsX86_64 => "dylib".to_owned(),
            FtwTarget::Android => "so".to_owned(),
            FtwTarget::Ios => "a".to_owned(),
            FtwTarget::Html5 => "wasm".to_owned(),
        }
    }

    /// Spec-level library file-name extension.
    pub open spec fn spec_lib_ext(&self) -> Seq<char> {
        match self {
            FtwTarget::LinuxX86_64 => "so"@,
            FtwTarget::WindowsX86_64 => "dll"@,
            FtwTarget::MacOsX86_64 => "dylib"@,
            FtwTarget::Android => "so"@,
            FtwTarget::Ios => "a"@,
            FtwTarget::Html5 => "wasm"@,
        }
    }

    /// The file-name extension of an exported, distributable package
    /// for this target.
    pub fn app_ext(&self) -> (r: String)
        ensures
            r@ == self.spec_app_ext(),
    {
        match self {
            FtwTarget::LinuxX86_64 => "x86_64".to_owned(),
            FtwTarget::WindowsX86_64 => "exe".to_owned(),
            FtwTarget::MacOsX86_64 => "zip".to_owned(),
            FtwTarget::Android => "apk".to_owned(),
            FtwTarget::Ios => "ipa".to_owned(),
            FtwTarget::Html5 => "html".to_owned(),
        }
    }

    /// Spec-level package file-name extension.
    pub open spec fn spec_app_ext(&self) -> Seq<char> {
        match self {
            FtwTarget::LinuxX86_64 => "x86_64"@,
            FtwTarget::WindowsX86_64 => "exe"@,
            FtwTarget::MacOsX86_64 => "zip"@,
            FtwTarget::Android => "apk"@,
            FtwTarget::Ios => "ipa"@,
            FtwTarget::Html5 => "html"@,
        }
    }

    /// The engine export-preset name that drives the export step for
    /// this target.
    pub fn to_export_name(&self) -> (r: String)
        ensures
            r@ == self.spec_export_name(),
    {
        match self {
            FtwTarget::LinuxX86_64 => "Linux/X11".to_owned(),
            FtwTarget::WindowsX86_64 => "Windows Desktop".to_owned(),
            FtwTarget::MacOsX86_64 => "Mac OSX".to_owned(),
            FtwTarget::Android => "Android".to_owned(),
            FtwTarget::Ios => "iOS".to_owned(),
            FtwTarget::Html5 => "HTML5".to_owned(),
        }
    }

    /// Spec-level export-preset name.
    pub open spec fn spec_export_name(&self) -> Seq<char> {
        match self {
            FtwTarget::LinuxX86_64 => "Linux/X11"@,
            FtwTarget::WindowsX86_64 => "Windows Desktop"@,
            FtwTarget::MacOsX86_64 => "Mac OSX"@,
            FtwTarget::Android => "Android"@,
            FtwTarget::Ios => "iOS"@,
            FtwTarget::Html5 => "HTML5"@,
        }
    }
}

/// Parsing a target never fails: text that matches no recognised
/// platform name resolves to the given fallback, the detected host
/// platform wherever the caller left the target unspecified.
pub proof fn lemma_parse_target_fallback(s: Seq<char>, fallback: FtwTarget)
    ensures
        !is_target_keyword(s) ==> spec_parse_target(s, fallback) == fallback,
{
}

/// Each recognised platform name parses to the target that renders that
/// same name: parse and render are inverse on the keyword table,
/// whatever the fallback.
pub proof fn lemma_target_name_round_trip(t: FtwTarget, fallback: FtwTarget)
    ensures
        spec_parse_target(t.spec_name(), fallback) == t,
{
    reveal_strlit("linux-x86_64");
    reveal_strlit("windows-x86_64");
    reveal_strlit("osx-x86_64");
    reveal_strlit("android");
    reveal_strlit("ios");
    reveal_strlit("html5");
    assert("linux-x86_64"@.len() == 12);
    assert("windows-x86_64"@.len() == 14);
    assert("osx-x86_64"@.len() == 10);
    assert("android"@.len() == 7);
    assert("ios"@.len() == 3);
    assert("html5"@.len() == 5);
}

} // verus!

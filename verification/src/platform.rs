//! The platforms for which declarations were generated.

use crate::text::same_text;
use crate::version::SdkVersion;
use vstd::prelude::*;
use vstd::string::*;

verus! {

/// An operating system and processor for which declarations exist.
#[allow(non_camel_case_types)]
#[derive(Clone, Copy, Debug, PartialEq, Eq, Structural)]
pub enum Platform {
    LinuxX86_64,
    WindowsX86_64,
}

impl Platform {
    /// The platform that a target's operating system and processor names
    /// stand for, if it is one of the closed set.
    pub open spec fn from_target_spec(os: Seq<char>, arch: Seq<char>) -> Option<Platform> {
        if arch == "x86_64"@ && os == "linux"@ {
            Some(Platform::LinuxX86_64)
        } else if arch == "x86_64"@ && os == "windows"@ {
            Some(Platform::WindowsX86_64)
        } else {
            None
        }
    }

    /// The name of the platform in file names.
    pub open spec fn name_text(self) -> Seq<char> {
        match self {
            Platform::LinuxX86_64 => "linux_x86_64"@,
            Platform::WindowsX86_64 => "windows_x86_64"@,
        }
    }

    /// The platform for a target given by the names of its operating system
    /// (`linux`, `windows`) and processor (`x86_64`). Any other target has no
    /// declarations and gets `None`.
    pub fn from_target(os: &str, arch: &str) -> (r: Option<Platform>)
        ensures
            r == Self::from_target_spec(os@, arch@),
    {
        if !same_text(arch, "x86_64") {
            None
        } else if same_text(os, "linux") {
            Some(Platform::LinuxX86_64)
        } else if same_text(os, "windows") {
            Some(Platform::WindowsX86_64)
        } else {
            None
        }
    }

    /// The name of the platform in file names, such as `linux_x86_64`.
    pub fn name(self) -> (r: &'static str)
        ensures
            r@ == self.name_text(),
    {
        match self {
            Platform::LinuxX86_64 => "linux_x86_64",
            Platform::WindowsX86_64 => "windows_x86_64",
        }
    }
}

/// Where the declarations of a version for a platform are kept: the
/// version's directory, then the platform's file.
pub open spec fn declarations_file_text(version: SdkVersion, platform: Platform) -> Seq<char> {
    version.selector_text() + "/"@ + platform.name_text() + ".rs"@
}

/// The file that holds the declarations of `version` for `platform`, relative
/// to the directory of declarations, such as `v13_0/linux_x86_64.rs`.
pub fn declarations_file(version: SdkVersion, platform: Platform) -> (r: String)
    ensures
        r@ == declarations_file_text(version, platform),
{
    let mut path = String::from_str(version.selector());
    path.append("/");
    path.append(platform.name());
    path.append(".rs");
    path
}

/// Each version and platform has a file of its own: two pairs that share a
/// file are the same pair.
pub proof fn lemma_declarations_file_distinct(
    version: SdkVersion,
    platform: Platform,
    other_version: SdkVersion,
    other_platform: Platform,
)
    requires
        declarations_file_text(version, platform) == declarations_file_text(
            other_version,
            other_platform,
        ),
    ensures
        version == other_version,
        platform == other_platform,
{
    reveal_strlit("/");
    reveal_strlit(".rs");
    reveal_strlit("linux_x86_64");
    reveal_strlit("windows_x86_64");
    let a = declarations_file_text(version, platform);
    let b = declarations_file_text(other_version, other_platform);
    assert(a.len() == b.len());
    assert(a[1] == b[1]);
    assert(a[2] == b[2]);
    assert(a[3] == b[3]);
    assert(a[4] == b[4]);
    assert(a[5] == b[5]);
    assert(a[6] == b[6]);
}

} // verus!

use nvidia_video_codec_sys::gate::version_list;
use nvidia_video_codec_sys::platform::{declarations_file, Platform};
use nvidia_video_codec_sys::text::same_text;
use nvidia_video_codec_sys::version::SdkVersion;

#[test]
fn platform_from_target_names() {
    assert_eq!(Platform::from_target("linux", "x86_64"), Some(Platform::LinuxX86_64));
    assert_eq!(Platform::from_target("windows", "x86_64"), Some(Platform::WindowsX86_64));
}

#[test]
fn platform_outside_the_set_is_refused() {
    assert_eq!(Platform::from_target("macos", "x86_64"), None);
    assert_eq!(Platform::from_target("linux", "aarch64"), None);
    assert_eq!(Platform::from_target("windows", "x86"), None);
    assert_eq!(Platform::from_target("Linux", "x86_64"), None);
    assert_eq!(Platform::from_target("linux ", "x86_64"), None);
    assert_eq!(Platform::from_target("", ""), None);
    assert_eq!(Platform::from_target("x86_64", "linux"), None);
}

#[test]
fn platform_names() {
    assert_eq!(Platform::LinuxX86_64.name(), "linux_x86_64");
    assert_eq!(Platform::WindowsX86_64.name(), "windows_x86_64");
}

#[test]
fn declarations_file_is_directory_then_platform() {
    assert_eq!(
        declarations_file(SdkVersion::V13_0, Platform::LinuxX86_64),
        "v13_0/linux_x86_64.rs"
    );
    assert_eq!(
        declarations_file(SdkVersion::V8_0, Platform::WindowsX86_64),
        "v8_0/windows_x86_64.rs"
    );
    for version in version_list() {
        for platform in [Platform::LinuxX86_64, Platform::WindowsX86_64] {
            let expected = format!("{}/{}.rs", version.selector(), platform.name());
            assert_eq!(declarations_file(version, platform), expected);
        }
    }
}

#[test]
fn declarations_files_are_distinct() {
    let mut files: Vec<String> = Vec::new();
    for version in version_list() {
        for platform in [Platform::LinuxX86_64, Platform::WindowsX86_64] {
            let file = declarations_file(version, platform);
            assert!(!files.contains(&file));
            files.push(file);
        }
    }
    assert_eq!(files.len(), 24);
}

#[test]
fn same_text_compares_characters() {
    assert!(same_text("", ""));
    assert!(same_text("linux", "linux"));
    assert!(!same_text("linux", "linus"));
    assert!(!same_text("linux", "linu"));
    assert!(!same_text("linu", "linux"));
    assert!(!same_text("", "x"));
    assert!(same_text("d\u{e9}codeur", "d\u{e9}codeur"));
    assert!(!same_text("d\u{e9}codeur", "decodeur"));
    assert!(!same_text("\u{e9}", "\u{e8}"));
}

use nvidia_video_codec_sys::gate::{check_selection, collect_enabled, gate, render_list, version_list, GateError};
use nvidia_video_codec_sys::version::{SdkVersion, VERSION_COUNT};

const SELECTORS: [&str; 12] = [
    "v8_0", "v8_1", "v8_2", "v9_0", "v9_1", "v10_0", "v11_0", "v11_1", "v12_0", "v12_1", "v12_2",
    "v13_0",
];

fn flags_of(bits: u32) -> [bool; 12] {
    let mut flags = [false; 12];
    for (i, flag) in flags.iter_mut().enumerate() {
        *flag = bits & (1 << i) != 0;
    }
    flags
}

#[test]
fn version_set_has_twelve_members_in_order() {
    assert_eq!(VERSION_COUNT, 12);
    let all = version_list();
    assert_eq!(all.len(), 12);
    for (i, version) in all.iter().enumerate() {
        assert_eq!(version.index(), i);
        assert_eq!(SdkVersion::from_index(i), Some(*version));
        assert_eq!(version.selector(), SELECTORS[i]);
    }
    assert_eq!(SdkVersion::from_index(12), None);
    assert_eq!(SdkVersion::from_index(usize::MAX), None);
}

#[test]
fn release_numbers() {
    assert_eq!((SdkVersion::V8_0.major(), SdkVersion::V8_0.minor()), (8, 0));
    assert_eq!((SdkVersion::V8_2.major(), SdkVersion::V8_2.minor()), (8, 2));
    assert_eq!((SdkVersion::V9_1.major(), SdkVersion::V9_1.minor()), (9, 1));
    assert_eq!((SdkVersion::V10_0.major(), SdkVersion::V10_0.minor()), (10, 0));
    assert_eq!((SdkVersion::V11_1.major(), SdkVersion::V11_1.minor()), (11, 1));
    assert_eq!((SdkVersion::V12_2.major(), SdkVersion::V12_2.minor()), (12, 2));
    assert_eq!((SdkVersion::V13_0.major(), SdkVersion::V13_0.minor()), (13, 0));
}

#[test]
fn versions_are_ordered_by_release() {
    let all = version_list();
    for a in &all {
        for b in &all {
            let by_release = (a.major(), a.minor()) < (b.major(), b.minor());
            assert_eq!(a.index() < b.index(), by_release);
        }
    }
}

#[test]
fn selector_is_v_major_underscore_minor() {
    for version in version_list() {
        let expected = format!("v{}_{}", version.major(), version.minor());
        assert_eq!(version.selector(), expected);
    }
}

#[test]
fn feature_variable_is_upper_case_selector() {
    assert_eq!(SdkVersion::V13_0.feature_variable(), "CARGO_FEATURE_V13_0");
    assert_eq!(SdkVersion::V8_0.feature_variable(), "CARGO_FEATURE_V8_0");
    assert_eq!(SdkVersion::V10_0.feature_variable(), "CARGO_FEATURE_V10_0");
    for version in version_list() {
        let expected = format!(
            "CARGO_FEATURE_{}",
            version.selector().to_uppercase().replace('.', "_")
        );
        assert_eq!(version.feature_variable(), expected);
    }
}

#[test]
fn gate_accepts_exactly_one_version() {
    for i in 0..12 {
        let mut flags = [false; 12];
        flags[i] = true;
        match gate(&flags) {
            Ok(version) => assert_eq!(version.index(), i),
            Err(e) => panic!("refused a single version: {:?}", e),
        }
    }
    assert!(matches!(gate(&flags_of(1 << 11)), Ok(SdkVersion::V13_0)));
}

#[test]
fn gate_decides_by_the_number_of_enabled_versions() {
    for bits in 0u32..(1 << 12) {
        let flags = flags_of(bits);
        let enabled = collect_enabled(&flags);
        assert_eq!(enabled.len(), bits.count_ones() as usize);
        match gate(&flags) {
            Ok(version) => {
                assert_eq!(bits.count_ones(), 1);
                assert!(flags[version.index()]);
            }
            Err(GateError::NoVersion) => assert_eq!(bits, 0),
            Err(GateError::MultipleVersions(listed)) => {
                assert!(bits.count_ones() >= 2);
                assert_eq!(listed, enabled);
            }
        }
    }
}

#[test]
fn collect_enabled_keeps_the_order_of_the_set() {
    let mut flags = [false; 12];
    flags[11] = true;
    flags[0] = true;
    flags[5] = true;
    assert_eq!(
        collect_enabled(&flags),
        vec![SdkVersion::V8_0, SdkVersion::V10_0, SdkVersion::V13_0]
    );
    assert_eq!(collect_enabled(&[false; 12]), vec![]);
    assert_eq!(collect_enabled(&[true; 12]), version_list());
}

#[test]
fn gate_refuses_no_version() {
    let refused = gate(&[false; 12]);
    let error = match refused {
        Err(e) => e,
        Ok(v) => panic!("accepted {:?}", v),
    };
    assert!(matches!(error, GateError::NoVersion));
    let message = error.message();
    assert_eq!(
        message,
        "nvidia-video-codec-sys: No SDK version feature enabled. Enable exactly one version \
         feature out of [\"v8_0\", \"v8_1\", \"v8_2\", \"v9_0\", \"v9_1\", \"v10_0\", \"v11_0\", \
         \"v11_1\", \"v12_0\", \"v12_1\", \"v12_2\", \"v13_0\"], e.g. `features = [\"v13_0\"]`."
    );
    assert!(message.contains("exactly one"));
    for selector in SELECTORS {
        assert!(message.contains(selector));
    }
    assert!(!message.contains('\n'));
}

#[test]
fn gate_refuses_two_versions_and_lists_both() {
    let mut flags = [false; 12];
    flags[SdkVersion::V13_0.index()] = true;
    flags[SdkVersion::V12_2.index()] = true;
    let error = match gate(&flags) {
        Err(e) => e,
        Ok(v) => panic!("accepted {:?}", v),
    };
    match &error {
        GateError::MultipleVersions(listed) => {
            assert_eq!(listed, &vec![SdkVersion::V12_2, SdkVersion::V13_0]);
        }
        GateError::NoVersion => panic!("two versions reported as none"),
    }
    assert_eq!(
        error.message(),
        "nvidia-video-codec-sys: Multiple SDK version features enabled: [\"v12_2\", \"v13_0\"]. \
         Enable exactly one version feature."
    );
}

#[test]
fn multiple_versions_message_matches_debug_of_selectors() {
    let flags = flags_of(0b1010_0000_0101);
    let enabled = collect_enabled(&flags);
    let names: Vec<&str> = enabled.iter().map(|v| v.selector()).collect();
    let expected = format!(
        "nvidia-video-codec-sys: Multiple SDK version features enabled: {:?}. \
         Enable exactly one version feature.",
        names
    );
    match gate(&flags) {
        Err(e) => assert_eq!(e.message(), expected),
        Ok(v) => panic!("accepted {:?}", v),
    }
}

#[test]
fn check_selection_on_lists() {
    assert!(matches!(check_selection(vec![]), Err(GateError::NoVersion)));
    assert!(matches!(
        check_selection(vec![SdkVersion::V9_1]),
        Ok(SdkVersion::V9_1)
    ));
    match check_selection(vec![SdkVersion::V9_1, SdkVersion::V9_0, SdkVersion::V9_1]) {
        Err(GateError::MultipleVersions(listed)) => {
            assert_eq!(listed, vec![SdkVersion::V9_1, SdkVersion::V9_0, SdkVersion::V9_1]);
        }
        other => panic!("unexpected {:?}", other),
    }
}

#[test]
fn render_list_quotes_and_separates() {
    assert_eq!(render_list(&vec![]), "[]");
    assert_eq!(render_list(&vec![SdkVersion::V11_0]), "[\"v11_0\"]");
    assert_eq!(
        render_list(&vec![SdkVersion::V8_1, SdkVersion::V12_0, SdkVersion::V8_1]),
        "[\"v8_1\", \"v12_0\", \"v8_1\"]"
    );
}

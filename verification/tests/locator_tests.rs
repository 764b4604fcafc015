use cargo_ndk::locator::{default_kit_dir, latest_version, locate, HostProbe};
use cargo_ndk::text::path_join;

fn probe_with_nothing() -> HostProbe {
    HostProbe {
        android_ndk_home: None,
        ndk_home: None,
        android_sdk_home: None,
        sdk_ndk_bundle_exists: false,
        install_base: String::from("/home/dev/.local/share"),
        installed_versions: None,
    }
}

#[test]
fn primary_env_var_wins_over_everything() {
    let mut probe = probe_with_nothing();
    probe.android_ndk_home = Some(String::from("/opt/primary-ndk"));
    probe.ndk_home = Some(String::from("/opt/legacy-ndk"));
    probe.android_sdk_home = Some(String::from("/opt/sdk"));
    probe.sdk_ndk_bundle_exists = true;
    probe.installed_versions = Some(vec![String::from("23.1.1")]);
    assert_eq!(locate(&probe), Some(String::from("/opt/primary-ndk")));
}

#[test]
fn primary_env_var_is_trusted_without_verification() {
    let mut probe = probe_with_nothing();
    probe.android_ndk_home = Some(String::from("/does/not/exist/anywhere"));
    assert_eq!(locate(&probe), Some(String::from("/does/not/exist/anywhere")));
}

#[test]
fn legacy_env_var_is_second() {
    let mut probe = probe_with_nothing();
    probe.ndk_home = Some(String::from("/opt/legacy-ndk"));
    probe.android_sdk_home = Some(String::from("/opt/sdk"));
    probe.sdk_ndk_bundle_exists = true;
    probe.installed_versions = Some(vec![String::from("23.1.1")]);
    assert_eq!(locate(&probe), Some(String::from("/opt/legacy-ndk")));
}

#[test]
fn sdk_root_is_third_and_requires_existence() {
    let mut probe = probe_with_nothing();
    probe.android_sdk_home = Some(String::from("/opt/sdk"));
    probe.sdk_ndk_bundle_exists = true;
    probe.installed_versions = Some(vec![String::from("23.1.1")]);
    assert_eq!(locate(&probe), Some(String::from("/opt/sdk/ndk-bundle")));

    probe.sdk_ndk_bundle_exists = false;
    assert_eq!(
        locate(&probe),
        Some(String::from("/home/dev/.local/share/Android/sdk/ndk/23.1.1"))
    );
}

#[test]
fn default_install_dir_picks_lexicographically_greatest() {
    let mut probe = probe_with_nothing();
    probe.installed_versions = Some(vec![
        String::from("21.0.0"),
        String::from("23.1.1"),
        String::from("22.0.0"),
    ]);
    assert_eq!(
        locate(&probe),
        Some(String::from("/home/dev/.local/share/Android/sdk/ndk/23.1.1"))
    );
}

#[test]
fn lexicographic_pick_is_a_documented_limitation() {
    // "9.0.0" sorts above "23.1.1" lexicographically even though it is the
    // lower version: the documented behaviour is to pick it anyway.
    let mut probe = probe_with_nothing();
    probe.installed_versions = Some(vec![
        String::from("23.1.1"),
        String::from("9.0.0"),
    ]);
    assert_eq!(
        locate(&probe),
        Some(String::from("/home/dev/.local/share/Android/sdk/ndk/9.0.0"))
    );
}

#[test]
fn nothing_found_yields_absence() {
    let probe = probe_with_nothing();
    assert_eq!(locate(&probe), None);
}

#[test]
fn empty_default_install_dir_yields_absence() {
    let mut probe = probe_with_nothing();
    probe.installed_versions = Some(vec![]);
    assert_eq!(locate(&probe), None);
}

#[test]
fn latest_version_of_empty_list_is_none() {
    assert_eq!(latest_version(&vec![]), None);
}

#[test]
fn latest_version_handles_duplicates() {
    let entries = vec![
        String::from("22.0.0"),
        String::from("22.0.0"),
        String::from("21.0.0"),
    ];
    assert_eq!(latest_version(&entries), Some(String::from("22.0.0")));
}

#[test]
fn default_kit_dir_layout() {
    assert_eq!(
        default_kit_dir("/home/dev/.local/share"),
        String::from("/home/dev/.local/share/Android/sdk/ndk")
    );
}

#[test]
fn path_join_inserts_one_separator() {
    assert_eq!(path_join("a", "b"), String::from("a/b"));
    assert_eq!(path_join("", "b"), String::from("/b"));
}

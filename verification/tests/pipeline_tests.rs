use cargo_ndk::error::{NdkError, CONFIG_ERROR_CODE, INVALID_ARGS_CODE, KIT_NOT_FOUND_CODE};
use cargo_ndk::locator::HostProbe;
use cargo_ndk::orchestrator::BuildRun;
use cargo_ndk::pipeline::prepare;
use cargo_ndk::resolver::ProjectConfig;
use cargo_ndk::target::Target;

#[test]
fn build_failure_aborts_before_collection() {
    // End-to-end decision trace: two targets, the first build succeeds, the
    // second fails with exit code 101. The run must end with code 101 and
    // the collection gate must stay closed.
    let probe = HostProbe {
        android_ndk_home: Some(String::from("/opt/ndk")),
        ndk_home: None,
        android_sdk_home: None,
        sdk_ndk_bundle_exists: false,
        install_base: String::from("/home/dev/.local/share"),
        installed_versions: None,
    };
    let config = ProjectConfig { targets: vec![Target::X86], platform: 21 };
    let plan = prepare(
        &probe,
        vec![Target::ArmeabiV7a, Target::Arm64V8a],
        None,
        &config,
    )
    .unwrap();
    assert_eq!(plan.kit, String::from("/opt/ndk"));

    let mut run = BuildRun::new(plan.targets);
    let mut invoked = Vec::new();
    while let Some(t) = run.next_target() {
        invoked.push(t);
        let exit_code = if t == Target::ArmeabiV7a { 0 } else { 101 };
        run.record_exit(exit_code);
    }
    assert_eq!(invoked, vec![Target::ArmeabiV7a, Target::Arm64V8a]);
    assert!(!run.all_succeeded());
    assert_eq!(run.exit_code(), 101);
}

#[test]
fn full_success_opens_the_collection_gate() {
    let probe = HostProbe {
        android_ndk_home: None,
        ndk_home: Some(String::from("/opt/legacy")),
        android_sdk_home: None,
        sdk_ndk_bundle_exists: false,
        install_base: String::from("/home/dev/.local/share"),
        installed_versions: None,
    };
    let config = ProjectConfig { targets: vec![Target::X86, Target::X86_64], platform: 21 };
    let plan = prepare(&probe, vec![], Some(24), &config).unwrap();
    assert_eq!(plan.kit, String::from("/opt/legacy"));
    assert_eq!(plan.platform, 24);

    let mut run = BuildRun::new(plan.targets);
    while let Some(_t) = run.next_target() {
        run.record_exit(0);
    }
    assert!(run.all_succeeded());
    assert_eq!(run.exit_code(), 0);
}

#[test]
fn missing_kit_is_a_distinct_failure_before_any_build() {
    // Empty environment, no SDK root, no default install directory: the
    // locator yields absence and the run aborts on a documented non-zero
    // exit path, before any build is attempted.
    let probe = HostProbe {
        android_ndk_home: None,
        ndk_home: None,
        android_sdk_home: None,
        sdk_ndk_bundle_exists: false,
        install_base: String::from("/home/dev/.local/share"),
        installed_versions: None,
    };
    let config = ProjectConfig { targets: vec![Target::X86], platform: 21 };
    let e = prepare(&probe, vec![], None, &config).unwrap_err();
    assert_eq!(e, NdkError::KitNotFound);
    assert_ne!(e.exit_code(), 0);
    assert!(e.message().contains("could not find any NDK"));
}

#[test]
fn each_failure_path_has_a_distinct_exit_code() {
    assert_eq!(NdkError::KitNotFound.exit_code(), KIT_NOT_FOUND_CODE);
    assert_eq!(NdkError::ConfigError.exit_code(), CONFIG_ERROR_CODE);
    assert_eq!(NdkError::InvalidArgs.exit_code(), INVALID_ARGS_CODE);
    let build = NdkError::BuildFailed { target: Target::X86, code: 101 };
    assert_eq!(build.exit_code(), 101);
    let codes = [
        NdkError::KitNotFound.exit_code(),
        NdkError::ConfigError.exit_code(),
        NdkError::InvalidArgs.exit_code(),
        0,
    ];
    for (i, a) in codes.iter().enumerate() {
        for b in codes.iter().skip(i + 1) {
            assert_ne!(a, b);
        }
    }
}

#[test]
fn build_failure_message_names_the_missing_toolchain_target() {
    let e = NdkError::BuildFailed { target: Target::Arm64V8a, code: 1 };
    assert!(e.message().contains("rustup target install aarch64-linux-android"));
}

use cargo_ndk::collector::{
    arch_dir, collect_plan, has_shared_library_suffix, profile_dir, FailurePolicy, FsAction,
};
use cargo_ndk::target::Target;

#[test]
fn shared_library_suffix_matching() {
    assert!(has_shared_library_suffix("libfoo.so"));
    assert!(has_shared_library_suffix("a.so"));
    assert!(has_shared_library_suffix("lib.tagged.so"));
    assert!(!has_shared_library_suffix(".so"));
    assert!(!has_shared_library_suffix("so"));
    assert!(!has_shared_library_suffix(""));
    assert!(!has_shared_library_suffix("libfoo.so.txt"));
    assert!(!has_shared_library_suffix("libfoo.dylib"));
}

#[test]
fn arch_dir_uses_display_name() {
    assert_eq!(
        arch_dir("/out/jniLibs", Target::ArmeabiV7a),
        String::from("/out/jniLibs/armeabi-v7a")
    );
}

#[test]
fn profile_dir_uses_triple_and_profile() {
    assert_eq!(
        profile_dir("/proj/target", Target::Arm64V8a, true),
        String::from("/proj/target/aarch64-linux-android/release")
    );
    assert_eq!(
        profile_dir("/proj/target", Target::X86, false),
        String::from("/proj/target/i686-linux-android/debug")
    );
}

#[test]
fn plan_copies_and_strips_each_matching_artifact_in_order() {
    let targets = vec![Target::Arm64V8a];
    let listings = vec![vec![
        String::from("libfoo.so"),
        String::from("notes.txt"),
        String::from("libbar.so"),
    ]];
    let plan = collect_plan(&targets, &listings, "/opt/ndk", "/proj/target", true, "/out");
    assert_eq!(
        plan,
        vec![
            FsAction::CreateDir { path: String::from("/out/arm64-v8a") },
            FsAction::CopyFile {
                from: String::from("/proj/target/aarch64-linux-android/release/libfoo.so"),
                to: String::from("/out/arm64-v8a/libfoo.so"),
            },
            FsAction::StripArtifact {
                kit: String::from("/opt/ndk"),
                triple: String::from("aarch64-linux-android"),
                path: String::from("/out/arm64-v8a/libfoo.so"),
            },
            FsAction::CopyFile {
                from: String::from("/proj/target/aarch64-linux-android/release/libbar.so"),
                to: String::from("/out/arm64-v8a/libbar.so"),
            },
            FsAction::StripArtifact {
                kit: String::from("/opt/ndk"),
                triple: String::from("aarch64-linux-android"),
                path: String::from("/out/arm64-v8a/libbar.so"),
            },
        ]
    );
}

#[test]
fn plan_creates_dest_subdirectory_even_without_artifacts() {
    let targets = vec![Target::X86, Target::X86_64];
    let listings = vec![vec![], vec![String::from("readme.md")]];
    let plan = collect_plan(&targets, &listings, "/opt/ndk", "/proj/target", false, "/out");
    assert_eq!(
        plan,
        vec![
            FsAction::CreateDir { path: String::from("/out/x86") },
            FsAction::CreateDir { path: String::from("/out/x86_64") },
        ]
    );
}

#[test]
fn strip_failures_are_tolerated_copy_failures_are_not() {
    let strip = FsAction::StripArtifact {
        kit: String::from("/opt/ndk"),
        triple: String::from("i686-linux-android"),
        path: String::from("/out/x86/libfoo.so"),
    };
    assert_eq!(strip.policy(), FailurePolicy::BestEffort);
    let copy = FsAction::CopyFile {
        from: String::from("/a/libfoo.so"),
        to: String::from("/b/libfoo.so"),
    };
    assert_eq!(copy.policy(), FailurePolicy::Fatal);
    let mkdir = FsAction::CreateDir { path: String::from("/out/x86") };
    assert_eq!(mkdir.policy(), FailurePolicy::Fatal);
}

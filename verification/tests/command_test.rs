use uer::command::{gen_layout, module_params_for, parse_command, plugin_params_for, BuildRequest, Command};
use uer::{plan_build, TargetOS, Variant};

fn args(a: &[&str]) -> Vec<String> {
    a.iter().map(|s| s.to_string()).collect()
}

fn build(a: &[&str]) -> BuildRequest {
    match parse_command(&args(a)).unwrap() {
        Command::Build(r) => r,
        _ => panic!("not a build"),
    }
}

fn error(a: &[&str]) -> String {
    match parse_command(&args(a)) {
        Err(e) => e,
        Ok(_) => panic!("accepted"),
    }
}

#[test]
fn gen_is_a_command() {
    assert!(matches!(parse_command(&args(&["gen"])).unwrap(), Command::Gen));
    assert_eq!(error(&["gen", "x"]), "unexpected argument 'x' for 'gen'");
}

#[test]
fn help_for_nothing_or_anything_else() {
    assert!(matches!(parse_command(&args(&[])).unwrap(), Command::Help));
    assert!(matches!(parse_command(&args(&["help"])).unwrap(), Command::Help));
    assert!(matches!(parse_command(&args(&["Build"])).unwrap(), Command::Help));
}

#[test]
fn build_defaults() {
    let r = build(&["build"]);
    assert_eq!(r.target_os, None);
    assert_eq!(r.variant, Variant::Debug);
    assert_eq!(r.module_name, "UERust");
    assert_eq!((r.abi, r.target_triple, r.android_ndk_root, r.android), (None, None, None, false));
}

#[test]
fn build_options() {
    let r = build(&["build", "--variant", "release", "--target-os=Win64", "--module-name", "Game"]);
    assert_eq!(r.target_os, Some(TargetOS::Win64));
    assert_eq!(r.variant, Variant::Release);
    assert_eq!(r.module_name, "Game");
    let r = build(&["build", "--variant=Release", "--variant", "DEBUG", "--target-os", "mac"]);
    assert_eq!(r.variant, Variant::Debug);
    assert_eq!(r.target_os, Some(TargetOS::Mac));
}

#[test]
fn release_build_is_planned_as_release() {
    let r = build(&["build", "--variant", "release"]);
    let plugin = plugin_params_for(&r);
    let module = module_params_for(&r, Some(TargetOS::Mac)).unwrap();
    let plan = plan_build(&plugin, &r.module_name, &module);
    assert_eq!(plan.cargo_args, vec!["build", "--release"]);
    assert_eq!(plan.src_dir, vec!["target", "release"]);
    assert_eq!(plugin.name, "UERustPlugin");
}

#[test]
fn android_defaults_and_options() {
    let r = build(&["android"]);
    assert_eq!(r.target_os, Some(TargetOS::Android));
    assert_eq!(r.abi.as_deref(), Some("arm64-v8a"));
    assert_eq!(r.target_triple.as_deref(), Some("aarch64-linux-android"));
    assert!(r.android);
    assert_eq!(r.android_ndk_root, None);
    let r = build(&["android", "--abi", "armeabi-v7a", "--target-triple=armv7-linux-androideabi", "--android-ndk-root", "/ndk"]);
    assert_eq!(r.abi.as_deref(), Some("armeabi-v7a"));
    assert_eq!(r.target_triple.as_deref(), Some("armv7-linux-androideabi"));
    assert_eq!(r.android_ndk_root.as_deref(), Some("/ndk"));
    let m = module_params_for(&r, None).unwrap();
    assert_eq!((m.abi, m.target_os, m.target_triple), (Some("armeabi-v7a"), TargetOS::Android, Some("armv7-linux-androideabi")));
}

#[test]
fn option_errors() {
    assert_eq!(error(&["build", "--abi", "x"]), "unknown option '--abi' for 'build'");
    assert_eq!(error(&["android", "--variant=release"]), "unknown option '--variant=release' for 'android'");
    assert_eq!(error(&["build", "--variant"]), "missing value for '--variant'");
    assert_eq!(error(&["build", "--variant", "fast"]), "invalid value 'fast' for '--variant' (expected debug or release)");
    assert_eq!(error(&["build", "--target-os=Linux"]), "invalid value 'Linux' for '--target-os' (expected Mac, Win64 or Android)");
    assert_eq!(error(&["build", "release"]), "unknown option 'release' for 'build'");
}

#[test]
fn target_platform_needs_a_host_or_an_option() {
    let r = build(&["build"]);
    assert!(module_params_for(&r, None).is_none());
    let m = module_params_for(&r, Some(TargetOS::Win64)).unwrap();
    assert_eq!((m.abi, m.target_os, m.target_triple), (None, TargetOS::Win64, None));
    let r = build(&["build", "--target-os", "android"]);
    assert_eq!(module_params_for(&r, Some(TargetOS::Mac)).unwrap().target_os, TargetOS::Android);
}

#[test]
fn gen_layout_paths() {
    let l = gen_layout(Some("MyGame"));
    assert_eq!(l.api, vec!["api.json"]);
    assert_eq!(l.rs_output_dir, vec!["src"]);
    assert_eq!(l.module_dir.unwrap(), vec!["Source", "MyGame"]);
    assert!(gen_layout(None).module_dir.is_none());
}

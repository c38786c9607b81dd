use uer::build_plan::{android_env, has_primary_stem, primary_stem};
use uer::command::help_text;
use uer::{plan_build, ModuleParams, PluginParams, TargetOS, Variant};

#[test]
fn platform_names() {
    assert_eq!(TargetOS::Mac.as_str(), "Mac");
    assert_eq!(TargetOS::Android.as_str(), "Android");
    assert_eq!(TargetOS::Win64.as_str(), "Win64");
    assert_eq!(Variant::Debug.as_str(), "Debug");
    assert_eq!(Variant::Release.as_str(), "Release");
}

#[test]
fn library_names_per_platform() {
    assert_eq!(TargetOS::Mac.lib_name("UERust"), "libUERust");
    assert_eq!(TargetOS::Android.lib_name("UERust"), "libUERust");
    assert_eq!(TargetOS::Win64.lib_name("UERust"), "UERust");
}

#[test]
fn mac_debug_build() {
    let plugin = PluginParams { name: "UERustPlugin", variant: Variant::Debug };
    let module = ModuleParams { abi: None, target_os: TargetOS::Mac, target_triple: None };
    let p = plan_build(&plugin, "UERust", &module);
    assert_eq!(p.profile_dir, "debug");
    assert_eq!(p.cargo_args, vec!["build"]);
    assert_eq!(p.lib_name, "libUERust");
    assert_eq!(
        p.install_name_args.unwrap(),
        vec!["-id", "@rpath/libUERust.dylib", "../target/debug/libUERust.dylib"]
    );
    assert_eq!(p.dst_dir, vec!["Plugins", "UERustPlugin", "Source", "UERust", "Mac"]);
    assert_eq!(p.src_dir, vec!["target", "debug"]);
}

#[test]
fn android_release_build() {
    let plugin = PluginParams { name: "P", variant: Variant::Release };
    let module = ModuleParams {
        abi: Some("arm64-v8a"),
        target_os: TargetOS::Android,
        target_triple: Some("aarch64-linux-android"),
    };
    let p = plan_build(&plugin, "M", &module);
    assert_eq!(p.profile_dir, "release");
    assert_eq!(p.cargo_args, vec!["build", "--target=aarch64-linux-android --release"]);
    assert_eq!(p.lib_name, "libM");
    assert!(p.install_name_args.is_none());
    assert_eq!(p.dst_dir, vec!["Plugins", "P", "Source", "M", "Android", "arm64-v8a"]);
    assert_eq!(p.src_dir, vec!["target", "aarch64-linux-android", "release"]);
}

#[test]
fn windows_release_build() {
    let plugin = PluginParams { name: "P", variant: Variant::Release };
    let module = ModuleParams { abi: None, target_os: TargetOS::Win64, target_triple: None };
    let p = plan_build(&plugin, "M", &module);
    assert_eq!(p.cargo_args, vec!["build", "--release"]);
    assert_eq!(p.lib_name, "M");
    assert_eq!(p.dst_dir, vec!["Plugins", "P", "Source", "M", "Win64"]);
}

#[test]
fn primary_stem_is_the_part_before_the_first_dot() {
    assert_eq!(primary_stem("data.dll.lib"), "data");
    assert_eq!(primary_stem("libUERust.dylib"), "libUERust");
    assert_eq!(primary_stem("noext"), "noext");
    assert_eq!(primary_stem(".hidden"), "");
    assert_eq!(primary_stem(""), "");
    assert!(has_primary_stem("UERust.dll", "UERust"));
    assert!(has_primary_stem("UERust.dll.lib", "UERust"));
    assert!(!has_primary_stem("UERust2.dll", "UERust"));
    assert!(!has_primary_stem("libUERust.d", "UERust"));
}

#[test]
fn help_text_lists_the_commands() {
    assert!(help_text().starts_with("Tasks:\n    build"));
}

#[test]
fn android_environment() {
    let env = android_env("/ndk", "/usr/bin");
    assert_eq!(env[0], ("PATH".to_string(), "/ndk/toolchains/llvm/prebuilt/darwin-x86_64/bin:/usr/bin".to_string()));
    assert_eq!(env[1], ("CC_aarch64_linux_android".to_string(), "aarch64-linux-android21-clang".to_string()));
    assert_eq!(
        env[2],
        ("CARGO_TARGET_AARCH64_LINUX_ANDROID_LINKER".to_string(), "aarch64-linux-android21-clang".to_string())
    );
    assert_eq!(env.len(), 3);
}

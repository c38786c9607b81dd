//! The decisions of the build command: which target is built, with which
//! cargo arguments, and where the built library is copied.
use vstd::prelude::*;

use crate::text::{
    append_str, ascii_lower, ascii_lowercase, find_char, join, join_seq, prefix_before, views,
    lemma_prefix_before_is_first_part,
};

verus! {

// ---------------------------------------------------------------------------
// Targets and variants
// ---------------------------------------------------------------------------

/// The platforms that a module is built for.
#[derive(Clone, Copy, Debug, PartialEq, Eq, Structural)]
pub enum TargetOS {
    Mac,
    Android,
    Win64,
}

/// The name of a platform, as Unreal names its binary folders.
pub open spec fn target_os_name(os: TargetOS) -> Seq<char> {
    match os {
        TargetOS::Mac => "Mac"@,
        TargetOS::Android => "Android"@,
        TargetOS::Win64 => "Win64"@,
    }
}

/// The file stem of the library `name` on a platform: `lib<name>` where the
/// platform's libraries carry that prefix.
pub open spec fn lib_name_spec(os: TargetOS, name: Seq<char>) -> Seq<char> {
    match os {
        TargetOS::Mac | TargetOS::Android => "lib"@ + name,
        TargetOS::Win64 => name,
    }
}

impl TargetOS {
    /// The name of the platform.
    pub fn as_str(&self) -> (r: &'static str)
        ensures
            r@ == target_os_name(*self),
    {
        match self {
            TargetOS::Mac => "Mac",
            TargetOS::Android => "Android",
            TargetOS::Win64 => "Win64",
        }
    }

    /// The file stem of the library `name` on this platform.
    pub fn lib_name(&self, name: &str) -> (r: String)
        ensures
            r@ == lib_name_spec(*self, name@),
    {
        match self {
            TargetOS::Mac | TargetOS::Android => {
                let mut s = String::new();
                append_str(&mut s, "lib");
                append_str(&mut s, name);
                assert(s@ =~= "lib"@ + name@);
                s
            },
            _ => name.to_owned(),
        }
    }
}

/// The build profiles.
#[derive(Clone, Copy, Debug, PartialEq, Eq, Structural)]
pub enum Variant {
    Debug,
    Release,
}

/// The name of a build profile.
pub open spec fn variant_name(v: Variant) -> Seq<char> {
    match v {
        Variant::Debug => "Debug"@,
        Variant::Release => "Release"@,
    }
}

impl Variant {
    /// The name of the build profile.
    pub fn as_str(&self) -> (r: &'static str)
        ensures
            r@ == variant_name(*self),
    {
        match self {
            Variant::Debug => "Debug",
            Variant::Release => "Release",
        }
    }
}

// ---------------------------------------------------------------------------
// The plan of one build
// ---------------------------------------------------------------------------

/// The plugin that modules are built into.
pub struct PluginParams<'a> {
    pub name: &'a str,
    pub variant: Variant,
}

/// How one module is built.
pub struct ModuleParams<'a> {
    /// The Android ABI folder that the library goes into, if any.
    pub abi: Option<&'a str>,
    pub target_os: TargetOS,
    /// The target triple that cargo builds for, if not the host's.
    pub target_triple: Option<&'a str>,
}

/// What building one module takes, as plain values; the paths are lists of
/// components.
pub struct BuildPlan {
    /// The profile folder under `target/`: the variant's name in small letters.
    pub profile_dir: String,
    /// The arguments of `cargo`.
    pub cargo_args: Vec<String>,
    /// The file stem of the built library.
    pub lib_name: String,
    /// The arguments of `install_name_tool`, for a platform that needs its
    /// install name set.
    pub install_name_args: Option<Vec<String>>,
    /// The folder under the project that the library is copied into.
    pub dst_dir: Vec<String>,
    /// The folder that cargo leaves the library in.
    pub src_dir: Vec<String>,
}

/// What a `BuildPlan` holds, as plain values.
pub struct BuildPlanView {
    pub profile_dir: Seq<char>,
    pub cargo_args: Seq<Seq<char>>,
    pub lib_name: Seq<char>,
    pub install_name_args: Option<Seq<Seq<char>>>,
    pub dst_dir: Seq<Seq<char>>,
    pub src_dir: Seq<Seq<char>>,
}

impl View for BuildPlan {
    type V = BuildPlanView;

    open spec fn view(&self) -> BuildPlanView {
        BuildPlanView {
            profile_dir: self.profile_dir@,
            cargo_args: views(self.cargo_args@),
            lib_name: self.lib_name@,
            install_name_args: match self.install_name_args {
                Some(v) => Some(views(v@)),
                None => None,
            },
            dst_dir: views(self.dst_dir@),
            src_dir: views(self.src_dir@),
        }
    }
}

/// The optional part of a path, as a list of at most one component.
pub open spec fn opt_component(o: Option<&str>) -> Seq<Seq<char>> {
    match o {
        Some(s) => seq![s@],
        None => seq![],
    }
}

/// The flags of `cargo build`: the target triple if one is given, and
/// `--release` for every variant but `Debug`.
pub open spec fn cargo_flags(plugin: PluginParams, module: ModuleParams) -> Seq<Seq<char>> {
    (match module.target_triple {
        Some(t) => seq!["--target="@ + t@],
        None => seq![],
    }) + (if plugin.variant != Variant::Debug {
        seq!["--release"@]
    } else {
        seq![]
    })
}

/// The arguments of `cargo`: `build`, then the flags joined by spaces as one
/// argument, where there are any.
pub open spec fn cargo_args_spec(plugin: PluginParams, module: ModuleParams) -> Seq<Seq<char>> {
    let flags = join_seq(cargo_flags(plugin, module), " "@);
    if flags.len() == 0 {
        seq!["build"@]
    } else {
        seq!["build"@, flags]
    }
}

/// The plan of building `module_name` into the plugin.
pub open spec fn build_plan_spec(
    plugin: PluginParams,
    module_name: Seq<char>,
    module: ModuleParams,
) -> BuildPlanView {
    let profile = ascii_lower(variant_name(plugin.variant));
    let lib = lib_name_spec(module.target_os, module_name);
    BuildPlanView {
        profile_dir: profile,
        cargo_args: cargo_args_spec(plugin, module),
        lib_name: lib,
        install_name_args: if module.target_os == TargetOS::Mac {
            Some(
                seq![
                    "-id"@,
                    "@rpath/"@ + lib + ".dylib"@,
                    "../target/"@ + profile + "/"@ + lib + ".dylib"@,
                ],
            )
        } else {
            None
        },
        dst_dir: seq![
            "Plugins"@,
            plugin.name@,
            "Source"@,
            module_name,
            target_os_name(module.target_os),
        ] + opt_component(module.abi),
        src_dir: seq!["target"@] + opt_component(module.target_triple) + seq![profile],
    }
}

pub(crate) fn string_of(s: &str) -> (r: String)
    ensures
        r@ == s@,
{
    s.to_owned()
}

pub(crate) fn cat3(a: &str, b: &str, c: &str) -> (r: String)
    ensures
        r@ == a@ + b@ + c@,
{
    let mut s = String::new();
    append_str(&mut s, a);
    append_str(&mut s, b);
    append_str(&mut s, c);
    assert(s@ =~= a@ + b@ + c@);
    s
}

/// Decides how `module_name` is built into the plugin and where its library
/// goes.
pub fn plan_build(plugin: &PluginParams, module_name: &str, module: &ModuleParams) -> (r: BuildPlan)
    ensures
        r@ == build_plan_spec(*plugin, module_name@, *module),
{
    let profile = ascii_lowercase(plugin.variant.as_str());

    let mut flags: Vec<String> = Vec::new();
    if let Some(target_triple) = module.target_triple {
        let mut flag = String::new();
        append_str(&mut flag, "--target=");
        append_str(&mut flag, target_triple);
        flags.push(flag);
    }
    if plugin.variant != Variant::Debug {
        flags.push(string_of("--release"));
    }
    assert(views(flags@) =~= cargo_flags(*plugin, *module));
    let flags_str = join(&flags, " ");
    let mut cargo_args: Vec<String> = Vec::new();
    cargo_args.push(string_of("build"));
    if flags_str.unicode_len() != 0 {
        cargo_args.push(flags_str);
    }
    assert(views(cargo_args@) =~= cargo_args_spec(*plugin, *module));

    let lib_name = module.target_os.lib_name(module_name);
    let install_name_args = if module.target_os == TargetOS::Mac {
        let mut args: Vec<String> = Vec::new();
        args.push(string_of("-id"));
        args.push(cat3("@rpath/", lib_name.as_str(), ".dylib"));
        let mut path = String::new();
        append_str(&mut path, "../target/");
        append_str(&mut path, profile.as_str());
        append_str(&mut path, "/");
        append_str(&mut path, lib_name.as_str());
        append_str(&mut path, ".dylib");
        args.push(path);
        Some(args)
    } else {
        None
    };

    let mut dst_dir: Vec<String> = Vec::new();
    dst_dir.push(string_of("Plugins"));
    dst_dir.push(string_of(plugin.name));
    dst_dir.push(string_of("Source"));
    dst_dir.push(string_of(module_name));
    dst_dir.push(string_of(module.target_os.as_str()));
    if let Some(abi) = module.abi {
        dst_dir.push(string_of(abi));
    }

    let mut src_dir: Vec<String> = Vec::new();
    src_dir.push(string_of("target"));
    if let Some(target_triple) = module.target_triple {
        src_dir.push(string_of(target_triple));
    }
    src_dir.push(string_of(profile.as_str()));

    let plan = BuildPlan { profile_dir: profile, cargo_args, lib_name, install_name_args, dst_dir, src_dir };
    assert(plan@.dst_dir =~= build_plan_spec(*plugin, module_name@, *module).dst_dir);
    assert(plan@.src_dir =~= build_plan_spec(*plugin, module_name@, *module).src_dir);
    assert(plan@.install_name_args =~= build_plan_spec(*plugin, module_name@, *module).install_name_args);
    plan
}

/// A build works in one profile folder: the variant's name in small letters
/// (`debug`, `release`). Cargo asks for `--release` exactly for the release
/// variant; the library is copied from `target/[<triple>/]<profile>`; and on
/// Mac `install_name_tool` edits the library of that same profile, under the
/// name that the copy picks out.
pub proof fn lemma_build_uses_one_profile(plugin: PluginParams, module_name: Seq<char>, module: ModuleParams)
    ensures
        ({
            let p = build_plan_spec(plugin, module_name, module);
            &&& p.profile_dir == ascii_lower(variant_name(plugin.variant))
            &&& p.src_dir.len() >= 2
            &&& p.src_dir[0] == "target"@
            &&& p.src_dir.last() == p.profile_dir
            &&& p.cargo_args.len() >= 1
            &&& p.cargo_args[0] == "build"@
            &&& (plugin.variant == Variant::Release) == (p.cargo_args.last() == (match module.target_triple {
                Some(t) => "--target="@ + t@ + " "@,
                None => Seq::<char>::empty(),
            }) + "--release"@)
            &&& (module.target_os == TargetOS::Mac) == (p.install_name_args is Some)
            &&& module.target_os == TargetOS::Mac ==> p.install_name_args->Some_0 == seq![
                "-id"@,
                "@rpath/"@ + p.lib_name + ".dylib"@,
                "../target/"@ + p.src_dir.last() + "/"@ + p.lib_name + ".dylib"@,
            ]
        }),
{
    let p = build_plan_spec(plugin, module_name, module);
    reveal_strlit("build");
    reveal_strlit("--release");
    reveal_strlit(" ");
    reveal_strlit("--target=");
    assert(p.src_dir.last() == p.profile_dir);
    let flags = crate::build_plan::cargo_flags(plugin, module);
    assert(join_seq(seq![] + seq!["--release"@], " "@) == "--release"@) by {
        assert(seq![] + seq!["--release"@] =~= seq!["--release"@]);
    }
    match module.target_triple {
        Some(t) => {
            if plugin.variant == Variant::Release {
                assert(flags =~= seq!["--target="@ + t@, "--release"@]);
                assert(flags.drop_last() =~= seq!["--target="@ + t@]);
                assert(join_seq(flags.drop_last(), " "@) == "--target="@ + t@);
                assert(join_seq(flags, " "@) == "--target="@ + t@ + " "@ + "--release"@);
            } else {
                assert(flags =~= seq!["--target="@ + t@]);
                assert(join_seq(flags, " "@) == "--target="@ + t@);
                assert(("--target="@ + t@).len() != ("--target="@ + t@ + " "@ + "--release"@).len());
            }
        },
        None => {
            if plugin.variant == Variant::Release {
                assert(flags =~= seq!["--release"@]);
            } else {
                assert(flags =~= Seq::<Seq<char>>::empty());
                assert(p.cargo_args =~= seq!["build"@]);
                assert("build"@.len() != "--release"@.len());
            }
        },
    }
}

// ---------------------------------------------------------------------------
// Picking out the built library
// ---------------------------------------------------------------------------

/// The part of a file name before its first `.`, or the whole name if it has
/// none.
pub open spec fn primary_stem_spec(name: Seq<char>) -> Seq<char> {
    prefix_before(name, '.')
}

/// The primary stem is the part of a file name up to its first `.`: a prefix
/// of the name without a `.`, which is the whole name or is followed by `.`.
pub proof fn lemma_primary_stem_is_first_part(name: Seq<char>)
    ensures
        primary_stem_spec(name).is_prefix_of(name),
        forall|j: int| 0 <= j < primary_stem_spec(name).len() ==> primary_stem_spec(name)[j] != '.',
        primary_stem_spec(name).len() < name.len() ==> name[primary_stem_spec(name).len() as int]
            == '.',
{
    lemma_prefix_before_is_first_part(name, '.');
}

/// The part of `filename` before its first `.` (`data` for `data.dll.lib`).
pub fn primary_stem(filename: &str) -> (r: &str)
    ensures
        r@ == primary_stem_spec(filename@),
{
    let i = find_char(filename, '.');
    filename.substring_char(0, i)
}

/// Whether the file `filename` belongs to the library whose stem is
/// `target_stem`: whether the part before its first `.` is that stem.
pub fn has_primary_stem(filename: &str, target_stem: &str) -> (r: bool)
    ensures
        r == (primary_stem_spec(filename@) == target_stem@),
{
    crate::text::str_eq(primary_stem(filename), target_stem)
}

// ---------------------------------------------------------------------------
// The Android toolchain
// ---------------------------------------------------------------------------

/// The environment of the Android build: the NDK's LLVM tools put first on
/// `PATH`, and its clang as the C compiler and linker of the target.
pub open spec fn android_env_spec(ndk_root: Seq<char>, path: Seq<char>) -> Seq<(Seq<char>, Seq<char>)> {
    seq![
        ("PATH"@, ndk_root + "/toolchains/llvm/prebuilt/darwin-x86_64/bin:"@ + path),
        ("CC_aarch64_linux_android"@, "aarch64-linux-android21-clang"@),
        ("CARGO_TARGET_AARCH64_LINUX_ANDROID_LINKER"@, "aarch64-linux-android21-clang"@),
    ]
}

/// The variables that the Android build sets, in order.
pub fn android_env(ndk_root: &str, path: &str) -> (r: Vec<(String, String)>)
    ensures
        Seq::new(r@.len(), |i: int| (r@[i].0@, r@[i].1@)) == android_env_spec(ndk_root@, path@),
{
    let mut r: Vec<(String, String)> = Vec::new();
    r.push((string_of("PATH"), cat3(ndk_root, "/toolchains/llvm/prebuilt/darwin-x86_64/bin:", path)));
    r.push((string_of("CC_aarch64_linux_android"), string_of("aarch64-linux-android21-clang")));
    r.push((
        string_of("CARGO_TARGET_AARCH64_LINUX_ANDROID_LINKER"),
        string_of("aarch64-linux-android21-clang"),
    ));
    assert(Seq::new(r@.len(), |i: int| (r@[i].0@, r@[i].1@)) =~= android_env_spec(ndk_root@, path@));
    r
}

}

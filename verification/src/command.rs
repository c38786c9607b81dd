//! The command line of the tool: `gen`, `build` and `android` with their
//! options, and what each command takes.
use vstd::prelude::*;

use crate::build_plan::{ModuleParams, PluginParams, TargetOS, Variant, cat3, string_of};
use crate::text::{append_str, ascii_lower, ascii_lowercase, find_char, prefix_before, str_eq, views};

verus! {

// ---------------------------------------------------------------------------
// Commands
// ---------------------------------------------------------------------------

/// What `build` or `android` is asked to do.
pub struct BuildRequest {
    /// The platform asked for with `--target-os`; the host's where `None`.
    pub target_os: Option<TargetOS>,
    pub variant: Variant,
    pub module_name: String,
    /// The Android ABI folder that the library goes into.
    pub abi: Option<String>,
    /// The target triple that cargo builds for.
    pub target_triple: Option<String>,
    /// The NDK asked for with `--android-ndk-root`; `ANDROID_NDK_ROOT` where
    /// `None`.
    pub android_ndk_root: Option<String>,
    /// Whether the build runs with the Android NDK's toolchain.
    pub android: bool,
}

/// What a `BuildRequest` holds, as plain values.
pub struct BuildRequestView {
    pub target_os: Option<TargetOS>,
    pub variant: Variant,
    pub module_name: Seq<char>,
    pub abi: Option<Seq<char>>,
    pub target_triple: Option<Seq<char>>,
    pub android_ndk_root: Option<Seq<char>>,
    pub android: bool,
}

/// The view of an optional string.
pub open spec fn opt_view(o: Option<String>) -> Option<Seq<char>> {
    match o {
        Some(s) => Some(s@),
        None => None,
    }
}

impl View for BuildRequest {
    type V = BuildRequestView;

    open spec fn view(&self) -> BuildRequestView {
        BuildRequestView {
            target_os: self.target_os,
            variant: self.variant,
            module_name: self.module_name@,
            abi: opt_view(self.abi),
            target_triple: opt_view(self.target_triple),
            android_ndk_root: opt_view(self.android_ndk_root),
            android: self.android,
        }
    }
}

/// The commands of the tool.
pub enum Command {
    /// Write the bindings and the project files.
    Gen,
    /// Build the module.
    Build(BuildRequest),
    /// Show the commands.
    Help,
}

/// What a `Command` holds, as plain values.
pub enum CommandView {
    Gen,
    Build(BuildRequestView),
    Help,
}

impl View for Command {
    type V = CommandView;

    open spec fn view(&self) -> CommandView {
        match self {
            Command::Gen => CommandView::Gen,
            Command::Build(r) => CommandView::Build(r@),
            Command::Help => CommandView::Help,
        }
    }
}

/// What `build` does without options: the module `UERust` in its debug
/// variant, for the host.
pub open spec fn default_build() -> BuildRequestView {
    BuildRequestView {
        target_os: None,
        variant: Variant::Debug,
        module_name: "UERust"@,
        abi: None,
        target_triple: None,
        android_ndk_root: None,
        android: false,
    }
}

/// What `android` does without options: the module `UERust` in its debug
/// variant, for 64-bit ARM.
pub open spec fn default_android() -> BuildRequestView {
    BuildRequestView {
        target_os: Some(TargetOS::Android),
        variant: Variant::Debug,
        module_name: "UERust"@,
        abi: Some("arm64-v8a"@),
        target_triple: Some("aarch64-linux-android"@),
        android_ndk_root: None,
        android: true,
    }
}

// ---------------------------------------------------------------------------
// Options
// ---------------------------------------------------------------------------

/// The options of `android` (when `android`) or of `build`.
pub open spec fn known_option(android: bool, name: Seq<char>) -> bool {
    if android {
        name == "--android-ndk-root"@ || name == "--abi"@ || name == "--target-triple"@
    } else {
        name == "--target-os"@ || name == "--variant"@ || name == "--module-name"@
    }
}

/// The value written after `=` in an argument, if it holds one.
pub open spec fn inline_value(a: Seq<char>) -> Option<Seq<char>> {
    let name = prefix_before(a, '=');
    if name.len() < a.len() {
        Some(a.subrange(name.len() as int + 1, a.len() as int))
    } else {
        None
    }
}

/// The platform that a value of `--target-os` names, in any case.
pub open spec fn parse_target_os(v: Seq<char>) -> Option<TargetOS> {
    let l = ascii_lower(v);
    if l == "mac"@ {
        Some(TargetOS::Mac)
    } else if l == "win64"@ {
        Some(TargetOS::Win64)
    } else if l == "android"@ {
        Some(TargetOS::Android)
    } else {
        None
    }
}

/// The variant that a value of `--variant` names, in any case.
pub open spec fn parse_variant(v: Seq<char>) -> Option<Variant> {
    let l = ascii_lower(v);
    if l == "debug"@ {
        Some(Variant::Debug)
    } else if l == "release"@ {
        Some(Variant::Release)
    } else {
        None
    }
}

/// The message for an option that the command does not have.
pub open spec fn unknown_option_message(a: Seq<char>, cmd: Seq<char>) -> Seq<char> {
    "unknown option '"@ + a + "' for '"@ + cmd + "'"@
}

/// The message for an option that is given no value.
pub open spec fn missing_value_message(name: Seq<char>) -> Seq<char> {
    "missing value for '"@ + name + "'"@
}

/// The message for a value that an option does not take.
pub open spec fn invalid_value_message(v: Seq<char>, name: Seq<char>, expected: Seq<char>) -> Seq<char> {
    "invalid value '"@ + v + "' for '"@ + name + "' (expected "@ + expected + ")"@
}

/// The request after the option `name` is given `value`.
pub open spec fn apply_option(name: Seq<char>, value: Seq<char>, r: BuildRequestView) -> Result<
    BuildRequestView,
    Seq<char>,
> {
    if name == "--target-os"@ {
        match parse_target_os(value) {
            Some(os) => Ok(BuildRequestView { target_os: Some(os), ..r }),
            None => Err(invalid_value_message(value, name, "Mac, Win64 or Android"@)),
        }
    } else if name == "--variant"@ {
        match parse_variant(value) {
            Some(v) => Ok(BuildRequestView { variant: v, ..r }),
            None => Err(invalid_value_message(value, name, "debug or release"@)),
        }
    } else if name == "--module-name"@ {
        Ok(BuildRequestView { module_name: value, ..r })
    } else if name == "--android-ndk-root"@ {
        Ok(BuildRequestView { android_ndk_root: Some(value), ..r })
    } else if name == "--abi"@ {
        Ok(BuildRequestView { abi: Some(value), ..r })
    } else {
        Ok(BuildRequestView { target_triple: Some(value), ..r })
    }
}

/// The name of a command, for messages.
pub open spec fn command_name(android: bool) -> Seq<char> {
    if android {
        "android"@
    } else {
        "build"@
    }
}

/// The request that the options `args` make of `r`, read from the left: an
/// option is `--name value` or `--name=value`, and a later one overrides an
/// earlier one. An option that the command does not have, a missing value or
/// a value that the option does not take gives its message.
pub open spec fn parse_options(android: bool, args: Seq<Seq<char>>, r: BuildRequestView) -> Result<
    BuildRequestView,
    Seq<char>,
>
    decreases args.len(),
{
    if args.len() == 0 {
        Ok(r)
    } else {
        let a = args[0];
        let name = prefix_before(a, '=');
        if !known_option(android, name) {
            Err(unknown_option_message(a, command_name(android)))
        } else {
            match inline_value(a) {
                Some(v) => match apply_option(name, v, r) {
                    Ok(r2) => parse_options(android, args.drop_first(), r2),
                    Err(e) => Err(e),
                },
                None => if args.len() < 2 {
                    Err(missing_value_message(name))
                } else {
                    match apply_option(name, args[1], r) {
                        Ok(r2) => parse_options(android, args.subrange(2, args.len() as int), r2),
                        Err(e) => Err(e),
                    }
                },
            }
        }
    }
}

/// The command that the arguments after the program's name ask for: `gen`
/// (which takes no arguments), `build` or `android` with their options, and
/// the help for no argument or any other one.
pub open spec fn parse_command_spec(args: Seq<Seq<char>>) -> Result<CommandView, Seq<char>> {
    if args.len() == 0 {
        Ok(CommandView::Help)
    } else if args[0] == "gen"@ {
        if args.len() == 1 {
            Ok(CommandView::Gen)
        } else {
            Err("unexpected argument '"@ + args[1] + "' for 'gen'"@)
        }
    } else if args[0] == "build"@ {
        match parse_options(false, args.drop_first(), default_build()) {
            Ok(r) => Ok(CommandView::Build(r)),
            Err(e) => Err(e),
        }
    } else if args[0] == "android"@ {
        match parse_options(true, args.drop_first(), default_android()) {
            Ok(r) => Ok(CommandView::Build(r)),
            Err(e) => Err(e),
        }
    } else {
        Ok(CommandView::Help)
    }
}

fn new_request(android: bool) -> (r: BuildRequest)
    ensures
        r@ == if android {
            default_android()
        } else {
            default_build()
        },
{
    if android {
        BuildRequest {
            target_os: Some(TargetOS::Android),
            variant: Variant::Debug,
            module_name: string_of("UERust"),
            abi: Some(string_of("arm64-v8a")),
            target_triple: Some(string_of("aarch64-linux-android")),
            android_ndk_root: None,
            android: true,
        }
    } else {
        BuildRequest {
            target_os: None,
            variant: Variant::Debug,
            module_name: string_of("UERust"),
            abi: None,
            target_triple: None,
            android_ndk_root: None,
            android: false,
        }
    }
}

fn is_known_option(android: bool, name: &str) -> (r: bool)
    ensures
        r == known_option(android, name@),
{
    if android {
        str_eq(name, "--android-ndk-root") || str_eq(name, "--abi") || str_eq(name, "--target-triple")
    } else {
        str_eq(name, "--target-os") || str_eq(name, "--variant") || str_eq(name, "--module-name")
    }
}

fn invalid_value(v: &str, name: &str, expected: &str) -> (r: String)
    ensures
        r@ == invalid_value_message(v@, name@, expected@),
{
    let mut s = String::new();
    append_str(&mut s, "invalid value '");
    append_str(&mut s, v);
    append_str(&mut s, "' for '");
    append_str(&mut s, name);
    append_str(&mut s, "' (expected ");
    append_str(&mut s, expected);
    append_str(&mut s, ")");
    assert(s@ =~= invalid_value_message(v@, name@, expected@));
    s
}

fn set_option(req: &mut BuildRequest, name: &str, value: &str) -> (r: Result<(), String>)
    ensures
        match r {
            Ok(_) => apply_option(name@, value@, old(req)@) == Ok::<BuildRequestView, Seq<char>>(
                final(req)@,
            ),
            Err(e) => apply_option(name@, value@, old(req)@) == Err::<BuildRequestView, Seq<char>>(
                e@,
            ),
        },
{
    if str_eq(name, "--target-os") {
        let l = ascii_lowercase(value);
        if str_eq(l.as_str(), "mac") {
            req.target_os = Some(TargetOS::Mac);
        } else if str_eq(l.as_str(), "win64") {
            req.target_os = Some(TargetOS::Win64);
        } else if str_eq(l.as_str(), "android") {
            req.target_os = Some(TargetOS::Android);
        } else {
            return Err(invalid_value(value, name, "Mac, Win64 or Android"));
        }
    } else if str_eq(name, "--variant") {
        let l = ascii_lowercase(value);
        if str_eq(l.as_str(), "debug") {
            req.variant = Variant::Debug;
        } else if str_eq(l.as_str(), "release") {
            req.variant = Variant::Release;
        } else {
            return Err(invalid_value(value, name, "debug or release"));
        }
    } else if str_eq(name, "--module-name") {
        req.module_name = string_of(value);
    } else if str_eq(name, "--android-ndk-root") {
        req.android_ndk_root = Some(string_of(value));
    } else if str_eq(name, "--abi") {
        req.abi = Some(string_of(value));
    } else {
        req.target_triple = Some(string_of(value));
    }
    Ok(())
}

fn parse_request(args: &Vec<String>, android: bool) -> (r: Result<BuildRequest, String>)
    requires
        args@.len() >= 1,
    ensures
        match r {
            Ok(req) => parse_options(
                android,
                views(args@).drop_first(),
                if android {
                    default_android()
                } else {
                    default_build()
                },
            ) == Ok::<BuildRequestView, Seq<char>>(req@),
            Err(e) => parse_options(
                android,
                views(args@).drop_first(),
                if android {
                    default_android()
                } else {
                    default_build()
                },
            ) == Err::<BuildRequestView, Seq<char>>(e@),
        },
{
    let ghost all = views(args@);
    let ghost init = if android {
        default_android()
    } else {
        default_build()
    };
    let mut req = new_request(android);
    let n = args.len();
    let mut i: usize = 1;
    assert(all.subrange(1, n as int) =~= all.drop_first());
    while i < n
        invariant
            1 <= i <= n,
            n == args@.len(),
            all == views(args@),
            init == if android {
                default_android()
            } else {
                default_build()
            },
            parse_options(android, all.drop_first(), init) == parse_options(
                android,
                all.subrange(i as int, n as int),
                req@,
            ),
        decreases n - i,
    {
        let ghost rest = all.subrange(i as int, n as int);
        let a = args[i].as_str();
        assert(rest[0] == a@);
        let k = find_char(a, '=');
        let name = a.substring_char(0, k);
        assert(name@ == prefix_before(a@, '='));
        assert(rest.len() == n - i);
        if !is_known_option(android, name) {
            let cmd = if android {
                "android"
            } else {
                "build"
            };
            let msg = cat3("unknown option '", a, "' for '");
            let mut msg = msg;
            append_str(&mut msg, cmd);
            append_str(&mut msg, "'");
            assert(msg@ =~= unknown_option_message(a@, command_name(android)));
            return Err(msg);
        }
        let ghost before = req@;
        if k < a.unicode_len() {
            let value = a.substring_char(k + 1, a.unicode_len());
            assert(inline_value(a@) == Some(value@));
            set_option(&mut req, name, value)?;
            assert(rest.drop_first() =~= all.subrange(i + 1, n as int));
            i = i + 1;
        } else {
            assert(inline_value(a@) is None);
            if i + 1 >= n {
                let msg = cat3("missing value for '", name, "'");
                assert(msg@ == missing_value_message(name@));
                return Err(msg);
            }
            let value = args[i + 1].as_str();
            assert(rest[1] == value@);
            set_option(&mut req, name, value)?;
            assert(rest.subrange(2, rest.len() as int) =~= all.subrange(i + 2, n as int));
            i = i + 2;
        }
    }
    assert(all.subrange(n as int, n as int) =~= Seq::<Seq<char>>::empty());
    Ok(req)
}

/// Reads the command from the arguments after the program's name.
pub fn parse_command(args: &Vec<String>) -> (r: Result<Command, String>)
    ensures
        match r {
            Ok(c) => parse_command_spec(views(args@)) == Ok::<CommandView, Seq<char>>(c@),
            Err(e) => parse_command_spec(views(args@)) == Err::<CommandView, Seq<char>>(e@),
        },
{
    let ghost all = views(args@);
    if args.len() == 0 {
        return Ok(Command::Help);
    }
    assert(all[0] == args@[0]@);
    let first = args[0].as_str();
    if str_eq(first, "gen") {
        if args.len() == 1 {
            Ok(Command::Gen)
        } else {
            assert(all[1] == args@[1]@);
            Err(cat3("unexpected argument '", args[1].as_str(), "' for 'gen'"))
        }
    } else if str_eq(first, "build") {
        let req = parse_request(args, false)?;
        Ok(Command::Build(req))
    } else if str_eq(first, "android") {
        let req = parse_request(args, true)?;
        Ok(Command::Build(req))
    } else {
        Ok(Command::Help)
    }
}

// ---------------------------------------------------------------------------
// What a build takes
// ---------------------------------------------------------------------------

/// The name of the plugin that the tool builds into.
pub open spec fn plugin_name() -> Seq<char> {
    "UERustPlugin"@
}

/// The plugin that a request builds into: `UERustPlugin`, in the requested
/// variant.
pub fn plugin_params_for(req: &BuildRequest) -> (r: PluginParams<'static>)
    ensures
        r.name@ == plugin_name(),
        r.variant == req.variant,
{
    PluginParams { name: "UERustPlugin", variant: req.variant }
}

fn opt_str(o: &Option<String>) -> (r: Option<&str>)
    ensures
        match r {
            Some(s) => opt_view(*o) == Some(s@),
            None => o is None,
        },
{
    match o {
        Some(s) => Some(s.as_str()),
        None => None,
    }
}

/// How a request builds its module: for the requested platform, or else for
/// the host `host`; `None` where neither is known.
pub fn module_params_for<'a>(req: &'a BuildRequest, host: Option<TargetOS>) -> (r: Option<
    ModuleParams<'a>,
>)
    ensures
        match r {
            Some(m) => {
                &&& m.target_os == match req.target_os {
                    Some(os) => os,
                    None => host->Some_0,
                }
                &&& (req.target_os is Some || host is Some)
                &&& match m.abi {
                    Some(a) => opt_view(req.abi) == Some(a@),
                    None => req.abi is None,
                }
                &&& match m.target_triple {
                    Some(t) => opt_view(req.target_triple) == Some(t@),
                    None => req.target_triple is None,
                }
            },
            None => req.target_os is None && host is None,
        },
{
    let target_os = match req.target_os {
        Some(os) => os,
        None => match host {
            Some(h) => h,
            None => return None,
        },
    };
    Some(ModuleParams { abi: opt_str(&req.abi), target_os, target_triple: opt_str(&req.target_triple) })
}

// ---------------------------------------------------------------------------
// What `gen` takes
// ---------------------------------------------------------------------------

/// Where `gen` reads and writes, relative to the project folder; the paths
/// are lists of components.
pub struct GenLayout {
    /// The API description.
    pub api: Vec<String>,
    /// The folder that `bindings.rs` goes into.
    pub rs_output_dir: Vec<String>,
    /// The source folder of the project's own module, for a named project.
    pub module_dir: Option<Vec<String>>,
}

/// Where `gen` reads and writes for the project `project_name`: `api.json`,
/// `src/`, and the module folder `Source/<project>`.
pub fn gen_layout(project_name: Option<&str>) -> (r: GenLayout)
    ensures
        views(r.api@) == seq!["api.json"@],
        views(r.rs_output_dir@) == seq!["src"@],
        match r.module_dir {
            Some(d) => project_name is Some && views(d@) == seq!["Source"@, project_name->Some_0@],
            None => project_name is None,
        },
{
    let mut api: Vec<String> = Vec::new();
    api.push(string_of("api.json"));
    let mut rs: Vec<String> = Vec::new();
    rs.push(string_of("src"));
    let module_dir = match project_name {
        Some(name) => {
            let mut d: Vec<String> = Vec::new();
            d.push(string_of("Source"));
            d.push(string_of(name));
            assert(views(d@) =~= seq!["Source"@, name@]);
            Some(d)
        },
        None => None,
    };
    assert(views(api@) =~= seq!["api.json"@]);
    assert(views(rs@) =~= seq!["src"@]);
    GenLayout { api, rs_output_dir: rs, module_dir }
}

// ---------------------------------------------------------------------------
// Help
// ---------------------------------------------------------------------------

/// The help text.
pub open spec fn help_text_spec() -> Seq<char> {
    "Tasks:
    build           compiles plugin
    android         compiles plugin for android"@
}

/// The help text that lists the commands.
pub fn help_text() -> (r: &'static str)
    ensures
        r@ == help_text_spec(),
{
    "Tasks:
    build           compiles plugin
    android         compiles plugin for android"
}

}

//! The Rust side of the bridge: the text of `bindings.rs`.
use vstd::prelude::*;

use crate::api::{FuncModel, FuncSpec, models};
use crate::templates::{RUST_HEAD, RUST_RUNTIME, RUST_FFI_MACRO};
use crate::text::{
    append_str, ascii_lower, ascii_lowercase, decimal, decimal_string, join, join_seq, str_eq,
    views,
};
use crate::types::{TypeSpec, usize_type, usize_type_spec};

verus! {

// ---------------------------------------------------------------------------
// Lists of arguments
// ---------------------------------------------------------------------------

/// The ways in which a list of arguments is spelled in the generated files.
pub enum ArgStyle {
    /// `key: type` in a `uerust_ffi!` signature; a buffer is a data pointer and
    /// a length.
    MacroParam,
    /// `key` in a call; a buffer passes its data pointer and its length.
    CallArg,
    /// `key: type` in a Rust signature.
    RustParam,
    /// `type key` in a C++ signature.
    CParam,
}

/// How one argument is spelled in the given style.
pub open spec fn arg_text(style: ArgStyle, a: (Seq<char>, TypeSpec)) -> Seq<char> {
    match style {
        ArgStyle::MacroParam => if a.1.is_buf_like {
            a.0 + "_data: "@ + a.1.rust_macro_type@ + ", "@ + a.0 + "_len: usize"@
        } else {
            a.0 + ": "@ + a.1.rust_macro_type@
        },
        ArgStyle::CallArg => if a.1.is_buf_like {
            a.0 + "_data, "@ + a.0 + "_len"@
        } else {
            a.0
        },
        ArgStyle::RustParam => a.0 + ": "@ + a.1.rust_type@,
        ArgStyle::CParam => a.1.c_type@ + " "@ + a.0,
    }
}

/// The spellings of all arguments in the given style.
pub open spec fn arg_texts(style: ArgStyle, args: Seq<(Seq<char>, TypeSpec)>) -> Seq<Seq<char>> {
    Seq::new(args.len(), |i: int| arg_text(style, args[i]))
}

/// The arguments in the given style, separated by `", "`.
pub open spec fn arg_list(style: ArgStyle, args: Seq<(Seq<char>, TypeSpec)>) -> Seq<char> {
    join_seq(arg_texts(style, args), ", "@)
}

fn arg_string(style: &ArgStyle, key: &String, t: &TypeSpec) -> (r: String)
    ensures
        r@ == arg_text(*style, (key@, *t)),
{
    let mut out = String::new();
    match style {
        ArgStyle::MacroParam => {
            if t.is_buf_like {
                append_str(&mut out, key.as_str());
                append_str(&mut out, "_data: ");
                append_str(&mut out, t.rust_macro_type);
                append_str(&mut out, ", ");
                append_str(&mut out, key.as_str());
                append_str(&mut out, "_len: usize");
            } else {
                append_str(&mut out, key.as_str());
                append_str(&mut out, ": ");
                append_str(&mut out, t.rust_macro_type);
            }
        },
        ArgStyle::CallArg => {
            if t.is_buf_like {
                append_str(&mut out, key.as_str());
                append_str(&mut out, "_data, ");
                append_str(&mut out, key.as_str());
                append_str(&mut out, "_len");
            } else {
                append_str(&mut out, key.as_str());
            }
        },
        ArgStyle::RustParam => {
            append_str(&mut out, key.as_str());
            append_str(&mut out, ": ");
            append_str(&mut out, t.rust_type);
        },
        ArgStyle::CParam => {
            append_str(&mut out, t.c_type);
            append_str(&mut out, " ");
            append_str(&mut out, key.as_str());
        },
    }
    assert(out@ =~= arg_text(*style, (key@, *t)));
    out
}

/// The arguments of `f` in the given style, separated by `", "`.
pub fn arg_list_string(style: ArgStyle, f: &FuncSpec) -> (r: String)
    ensures
        r@ == arg_list(style, f@.args),
{
    let mut parts: Vec<String> = Vec::new();
    let n = f.args.len();
    for i in 0..n
        invariant
            n == f.args@.len(),
            parts@.len() == i,
            forall|j: int| 0 <= j < i ==> #[trigger] parts@[j]@ == arg_text(style, f@.args[j]),
    {
        let s = arg_string(&style, &f.args[i].0, &f.args[i].1);
        parts.push(s);
    }
    assert(views(parts@) =~= arg_texts(style, f@.args));
    join(&parts, ", ")
}

// ---------------------------------------------------------------------------
// `rinvoke`: the dispatch of calls from C++
// ---------------------------------------------------------------------------

/// The line that reads argument `i` of the call into `binding`, checking its
/// tag.
pub open spec fn arg_read_line(binding: Seq<char>, i: nat, tag: Seq<char>) -> Seq<char> {
    "        let Some("@ + binding + ") = args.get("@ + decimal(i) + ").map(|v| { assert_eq!(v.tag, ArgTag::"@
        + tag + "); unsafe { v.value."@ + ascii_lower(tag) + "_val } }) else { return Return::none() };\n"@
}

/// The lines that read argument `i`: a buffer reads its data and its length.
pub open spec fn arg_read_lines(a: (Seq<char>, TypeSpec), i: nat) -> Seq<char> {
    if a.1.is_buf_like {
        arg_read_line(a.0 + "_data"@, i, a.1.tag@) + arg_read_line(a.0 + "_len"@, i, usize_type().tag@)
    } else {
        arg_read_line(a.0, i, a.1.tag@)
    }
}

/// The lines that read the first `k` arguments.
pub open spec fn arg_reads(args: Seq<(Seq<char>, TypeSpec)>, k: nat) -> Seq<char>
    decreases k,
{
    if k == 0 {
        seq![]
    } else {
        arg_reads(args, (k - 1) as nat) + arg_read_lines(args[k - 1], (k - 1) as nat)
    }
}

/// The return type in a `uerust_ffi!` signature: nothing for `()`.
pub open spec fn macro_ret(ret: TypeSpec) -> Seq<char> {
    if ret.rust_type@ == "()"@ {
        seq![]
    } else {
        "-> "@ + ret.rust_macro_type@ + " "@
    }
}

/// The call of the Rust function and the return of its result.
pub open spec fn rinvoke_call(f: FuncModel) -> Seq<char> {
    if f.ret.rust_type@ == "()"@ {
        "        crate::"@ + f.name + "("@ + arg_list(ArgStyle::CallArg, f.args) + ");\n"@
            + "        return Return::none();\n"@
    } else {
        "        return Return::some(Argument { tag: ArgTag::"@ + f.ret.tag@ + ", value: ArgType { "@
            + ascii_lower(f.ret.tag@) + "_val: crate::"@ + f.name + "("@ + arg_list(
            ArgStyle::CallArg,
            f.args,
        ) + ") } });\n"@
    }
}

/// The opening of the branch of `rinvoke` for the function at `idx`.
pub open spec fn branch_head(f: FuncModel, idx: nat) -> Seq<char> {
    (if idx == 0 {
        "    "@
    } else {
        seq![]
    }) + "if rmethod_id == RMethodId::"@ + f.name + " as u16 {\n"@
}

/// The comment that shows the `uerust_ffi!` signature the Rust function needs.
pub open spec fn macro_comment(f: FuncModel) -> Seq<char> {
    "        // uerust_ffi!(fn "@ + f.name + "("@ + arg_list(ArgStyle::MacroParam, f.args) + ") "@
        + macro_ret(f.ret) + "{ unimplemented!() });\n"@
}

/// The close of the branch at `idx` of `n`: the last one ends the chain.
pub open spec fn branch_close(idx: nat, n: nat) -> Seq<char> {
    if idx + 1 == n {
        "    }\n"@
    } else {
        "    } else "@
    }
}

/// The branch of `rinvoke` for the function at `idx` of `n`.
pub open spec fn rinvoke_branch(f: FuncModel, idx: nat, n: nat) -> Seq<char> {
    branch_head(f, idx) + arg_reads(f.args, f.args.len()) + macro_comment(f) + rinvoke_call(f)
        + branch_close(idx, n)
}

/// The branches of `rinvoke` for the first `k` functions of `fs`.
pub open spec fn rinvoke_branches(fs: Seq<FuncModel>, k: nat) -> Seq<char>
    decreases k,
{
    if k == 0 {
        seq![]
    } else {
        rinvoke_branches(fs, (k - 1) as nat) + rinvoke_branch(fs[k - 1], (k - 1) as nat, fs.len())
    }
}

fn arg_read_line_string(out: &mut String, binding: &str, i: usize, tag: &str)
    ensures
        final(out)@ == old(out)@ + arg_read_line(binding@, i as nat, tag@),
{
    let ghost start = out@;
    append_str(out, "        let Some(");
    append_str(out, binding);
    append_str(out, ") = args.get(");
    let num = decimal_string(i);
    append_str(out, num.as_str());
    append_str(out, ").map(|v| { assert_eq!(v.tag, ArgTag::");
    append_str(out, tag);
    append_str(out, "); unsafe { v.value.");
    let lower = ascii_lowercase(tag);
    append_str(out, lower.as_str());
    append_str(out, "_val } }) else { return Return::none() };\n");
    assert(out@ =~= start + arg_read_line(binding@, i as nat, tag@));
}

fn key_with(key: &String, suffix: &str) -> (r: String)
    ensures
        r@ == key@ + suffix@,
{
    let mut s = key.clone();
    append_str(&mut s, suffix);
    s
}

fn push_arg_reads(out: &mut String, f: &FuncSpec)
    ensures
        final(out)@ == old(out)@ + arg_reads(f@.args, f@.args.len()),
{
    let usize_t = usize_type_spec();
    let n = f.args.len();
    let ghost start = out@;
    for i in 0..n
        invariant
            n == f.args@.len(),
            usize_t == usize_type(),
            out@ == start + arg_reads(f@.args, i as nat),
    {
        let key = &f.args[i].0;
        let t = &f.args[i].1;
        let ghost before = out@;
        assert(f@.args[i as int] == (key@, *t));
        if t.is_buf_like {
            let data = key_with(key, "_data");
            let len = key_with(key, "_len");
            arg_read_line_string(out, data.as_str(), i, t.tag);
            arg_read_line_string(out, len.as_str(), i, usize_t.tag);
        } else {
            arg_read_line_string(out, key.as_str(), i, t.tag);
        }
        assert(out@ =~= before + arg_read_lines(f@.args[i as int], i as nat));
    }
}

fn push_macro_comment(out: &mut String, f: &FuncSpec)
    ensures
        final(out)@ == old(out)@ + macro_comment(f@),
{
    let ghost start = out@;
    append_str(out, "        // uerust_ffi!(fn ");
    append_str(out, f.name.as_str());
    append_str(out, "(");
    let params = arg_list_string(ArgStyle::MacroParam, f);
    append_str(out, params.as_str());
    append_str(out, ") ");
    if !str_eq(f.ret.rust_type, "()") {
        append_str(out, "-> ");
        append_str(out, f.ret.rust_macro_type);
        append_str(out, " ");
    }
    append_str(out, "{ unimplemented!() });\n");
    assert(out@ =~= start + macro_comment(f@));
}

fn push_rinvoke_call(out: &mut String, f: &FuncSpec)
    ensures
        final(out)@ == old(out)@ + rinvoke_call(f@),
{
    let ghost start = out@;
    let args = arg_list_string(ArgStyle::CallArg, f);
    if str_eq(f.ret.rust_type, "()") {
        append_str(out, "        crate::");
        append_str(out, f.name.as_str());
        append_str(out, "(");
        append_str(out, args.as_str());
        append_str(out, ");\n");
        append_str(out, "        return Return::none();\n");
    } else {
        append_str(out, "        return Return::some(Argument { tag: ArgTag::");
        append_str(out, f.ret.tag);
        append_str(out, ", value: ArgType { ");
        let lower = ascii_lowercase(f.ret.tag);
        append_str(out, lower.as_str());
        append_str(out, "_val: crate::");
        append_str(out, f.name.as_str());
        append_str(out, "(");
        append_str(out, args.as_str());
        append_str(out, ") } });\n");
    }
    assert(out@ =~= start + rinvoke_call(f@));
}

fn push_rinvoke_branch(out: &mut String, f: &FuncSpec, idx: usize, n: usize)
    ensures
        final(out)@ == old(out)@ + rinvoke_branch(f@, idx as nat, n as nat),
{
    let ghost start = out@;
    if idx == 0 {
        append_str(out, "    ");
    }
    append_str(out, "if rmethod_id == RMethodId::");
    append_str(out, f.name.as_str());
    append_str(out, " as u16 {\n");
    assert(out@ =~= start + branch_head(f@, idx as nat));
    let ghost s1 = out@;
    push_arg_reads(out, f);
    push_macro_comment(out, f);
    push_rinvoke_call(out, f);
    let ghost s2 = out@;
    if idx as u128 + 1 == n as u128 {
        append_str(out, "    }\n");
    } else {
        append_str(out, "    } else ");
    }
    assert(out@ == s2 + branch_close(idx as nat, n as nat));
    assert(out@ =~= start + rinvoke_branch(f@, idx as nat, n as nat));
}

// ---------------------------------------------------------------------------
// Method ids
// ---------------------------------------------------------------------------

/// The enumerator that gives the function at `i` of `fs` the id `i + 1`.
pub open spec fn id_line(fs: Seq<FuncModel>, i: int) -> Seq<char> {
    "    "@ + fs[i].name + " = "@ + decimal((i + 1) as nat) + ",\n"@
}

/// The enumerators of the first `k` functions of `fs`, numbered from 1 in
/// the order of `fs`.
pub open spec fn id_lines(fs: Seq<FuncModel>, k: nat) -> Seq<char>
    decreases k,
{
    if k == 0 {
        seq![]
    } else {
        id_lines(fs, (k - 1) as nat) + id_line(fs, k - 1)
    }
}

/// Appends the enumerators of all functions of `fs`.
pub fn push_id_lines(out: &mut String, fs: &Vec<FuncSpec>)
    ensures
        final(out)@ == old(out)@ + id_lines(models(fs@), fs@.len()),
{
    let ghost start = out@;
    let n = fs.len();
    for i in 0..n
        invariant
            n == fs@.len(),
            out@ == start + id_lines(models(fs@), i as nat),
    {
        let ghost before = out@;
        append_str(out, "    ");
        append_str(out, fs[i].name.as_str());
        append_str(out, " = ");
        let num = decimal_string(i + 1);
        append_str(out, num.as_str());
        append_str(out, ",\n");
        assert(models(fs@)[i as int].name == fs@[i as int].name@);
        assert(out@ =~= before + id_line(models(fs@), i as int));
    }
}

/// The attributes of the Rust enums of method ids.
pub open spec fn id_enum_attrs() -> Seq<char> {
    "#[allow(non_camel_case_types)]\n#[repr(C)]\n"@
}

/// The Rust enum `name` of method ids, after its attributes.
pub open spec fn rust_id_enum_body(name: Seq<char>, fs: Seq<FuncModel>) -> Seq<char> {
    "enum "@ + name + " {\n"@ + id_lines(fs, fs.len()) + "}\n"@
}

/// The Rust enum `name` of method ids, or nothing for no functions.
pub open spec fn rust_id_enum(name: Seq<char>, fs: Seq<FuncModel>) -> Seq<char> {
    if fs.len() == 0 {
        seq![]
    } else {
        id_enum_attrs() + rust_id_enum_body(name, fs) + "\n"@
    }
}

fn push_rust_id_enum(out: &mut String, name: &str, fs: &Vec<FuncSpec>)
    ensures
        final(out)@ == old(out)@ + rust_id_enum(name@, models(fs@)),
{
    let ghost start = out@;
    if fs.len() != 0 {
        append_str(out, "#[allow(non_camel_case_types)]\n#[repr(C)]\n");
        append_str(out, "enum ");
        append_str(out, name);
        append_str(out, " {\n");
        push_id_lines(out, fs);
        append_str(out, "}\n");
        append_str(out, "\n");
    }
    assert(out@ =~= start + rust_id_enum(name@, models(fs@)));
}

// ---------------------------------------------------------------------------
// `invoke_*`: the calls from Rust into C++
// ---------------------------------------------------------------------------

/// The element of the argument array that carries one argument.
pub open spec fn arg_value(a: (Seq<char>, TypeSpec)) -> Seq<char> {
    if a.1.is_buf_like {
        "        Argument { tag: ArgTag::Buf, value: ArgType { buf_val: ManuallyDrop::new(Buffer { ptr: "@
            + a.0 + ".as_ptr(), len: "@ + a.0 + ".len() }) } },\n"@
    } else {
        "        Argument { tag: ArgTag::"@ + a.1.tag@ + ", value: ArgType { "@ + a.1.rust_type@
            + "_val: "@ + a.0 + " } },\n"@
    }
}

/// The elements for the first `k` arguments.
pub open spec fn arg_values(args: Seq<(Seq<char>, TypeSpec)>, k: nat) -> Seq<char>
    decreases k,
{
    if k == 0 {
        seq![]
    } else {
        arg_values(args, (k - 1) as nat) + arg_value(args[k - 1])
    }
}

/// The function `invoke_<name>` through which Rust calls `f` in C++.
pub open spec fn invoke_fn(f: FuncModel) -> Seq<char> {
    "/// "@ + f.name + " — "@ + f.doc + "\n"@ + "#[inline]\npub fn invoke_"@ + f.name + "("@
        + arg_list(ArgStyle::RustParam, f.args) + ") -> Return {\n"@ + "    let args = [\n"@
        + arg_values(f.args, f.args.len()) + "    ];\n"@ + "    (GetUERustCApi().invoke)(MethodId::"@
        + f.name + " as u16, (&args).as_ptr(), args.len())\n"@ + "}\n"@
}

/// The `invoke_*` functions of the first `k` functions of `fs`.
pub open spec fn invoke_fns(fs: Seq<FuncModel>, k: nat) -> Seq<char>
    decreases k,
{
    if k == 0 {
        seq![]
    } else {
        invoke_fns(fs, (k - 1) as nat) + invoke_fn(fs[k - 1])
    }
}

fn push_arg_values(out: &mut String, f: &FuncSpec)
    ensures
        final(out)@ == old(out)@ + arg_values(f@.args, f@.args.len()),
{
    let ghost start = out@;
    let n = f.args.len();
    for i in 0..n
        invariant
            n == f.args@.len(),
            out@ == start + arg_values(f@.args, i as nat),
    {
        let key = &f.args[i].0;
        let t = &f.args[i].1;
        let ghost before = out@;
        assert(f@.args[i as int] == (key@, *t));
        if t.is_buf_like {
            append_str(
                out,
                "        Argument { tag: ArgTag::Buf, value: ArgType { buf_val: ManuallyDrop::new(Buffer { ptr: ",
            );
            append_str(out, key.as_str());
            append_str(out, ".as_ptr(), len: ");
            append_str(out, key.as_str());
            append_str(out, ".len() }) } },\n");
        } else {
            append_str(out, "        Argument { tag: ArgTag::");
            append_str(out, t.tag);
            append_str(out, ", value: ArgType { ");
            append_str(out, t.rust_type);
            append_str(out, "_val: ");
            append_str(out, key.as_str());
            append_str(out, " } },\n");
        }
        assert(out@ =~= before + arg_value(f@.args[i as int]));
    }
}

fn push_invoke_fn(out: &mut String, f: &FuncSpec)
    ensures
        final(out)@ == old(out)@ + invoke_fn(f@),
{
    let ghost start = out@;
    append_str(out, "/// ");
    append_str(out, f.name.as_str());
    append_str(out, " — ");
    append_str(out, f.doc.as_str());
    append_str(out, "\n");
    append_str(out, "#[inline]\npub fn invoke_");
    append_str(out, f.name.as_str());
    append_str(out, "(");
    let params = arg_list_string(ArgStyle::RustParam, f);
    append_str(out, params.as_str());
    append_str(out, ") -> Return {\n");
    append_str(out, "    let args = [\n");
    push_arg_values(out, f);
    append_str(out, "    ];\n");
    append_str(out, "    (GetUERustCApi().invoke)(MethodId::");
    append_str(out, f.name.as_str());
    append_str(out, " as u16, (&args).as_ptr(), args.len())\n");
    append_str(out, "}\n");
    assert(out@ =~= start + invoke_fn(f@));
}

// ---------------------------------------------------------------------------
// The whole file
// ---------------------------------------------------------------------------

/// The text of `bindings.rs` for the functions `cfuncs` (called from Rust)
/// and `rfuncs` (called from C++), each numbered in its order.
pub open spec fn rust_bindings_text(cfuncs: Seq<FuncModel>, rfuncs: Seq<FuncModel>) -> Seq<char> {
    RUST_HEAD@ + rinvoke_branches(rfuncs, rfuncs.len()) + RUST_RUNTIME@ + rust_id_enum(
        "MethodId"@,
        cfuncs,
    ) + rust_id_enum("RMethodId"@, rfuncs) + invoke_fns(cfuncs, cfuncs.len()) + RUST_FFI_MACRO@
}

/// Writes `bindings.rs` for the two function lists.
pub fn rust_bindings(cfuncs: &Vec<FuncSpec>, rfuncs: &Vec<FuncSpec>) -> (r: String)
    ensures
        r@ == rust_bindings_text(models(cfuncs@), models(rfuncs@)),
{
    let mut out = String::new();
    append_str(&mut out, RUST_HEAD);
    let ghost after_head = out@;
    let nr = rfuncs.len();
    for idx in 0..nr
        invariant
            nr == rfuncs@.len(),
            out@ == after_head + rinvoke_branches(models(rfuncs@), idx as nat),
    {
        assert(models(rfuncs@)[idx as int] == rfuncs@[idx as int]@);
        push_rinvoke_branch(&mut out, &rfuncs[idx], idx, nr);
    }
    append_str(&mut out, RUST_RUNTIME);
    push_rust_id_enum(&mut out, "MethodId", cfuncs);
    push_rust_id_enum(&mut out, "RMethodId", rfuncs);
    let ghost before_invokes = out@;
    let nc = cfuncs.len();
    for i in 0..nc
        invariant
            nc == cfuncs@.len(),
            out@ == before_invokes + invoke_fns(models(cfuncs@), i as nat),
    {
        assert(models(cfuncs@)[i as int] == cfuncs@[i as int]@);
        push_invoke_fn(&mut out, &cfuncs[i]);
    }
    append_str(&mut out, RUST_FFI_MACRO);
    assert(out@ =~= rust_bindings_text(models(cfuncs@), models(rfuncs@)));
    out
}

}

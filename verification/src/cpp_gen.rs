//! The C++ side of the bridge: the text of `UERustModuleImpl.h` and
//! `UERustModuleImpl.cpp`.
use vstd::prelude::*;

use crate::api::{FuncModel, FuncSpec, models};
use crate::rust_gen::{
    ArgStyle, arg_list, arg_list_string, id_line, id_lines, push_id_lines, rust_bindings_text,
    rust_id_enum, rust_id_enum_body, id_enum_attrs, rinvoke_branches, invoke_fns,
};
use crate::templates::{
    RUST_HEAD, RUST_RUNTIME, RUST_FFI_MACRO, HEADER_HEAD, HEADER_MIDDLE, CPP_HEAD, CPP_STARTUP, CPP_AFTER_DISPATCH, CPP_LOG,
};
use crate::text::{
    append_str, ascii_lower, ascii_lowercase, decimal, decimal_string, join, join_seq, str_eq,
    views,
};
use crate::types::{TypeSpec, usize_type, usize_type_spec};

verus! {

// ---------------------------------------------------------------------------
// The header
// ---------------------------------------------------------------------------

/// The declaration of the member of `UERustApi` through which C++ calls `f`
/// in Rust.
pub open spec fn rapi_decl(f: FuncModel) -> Seq<char> {
    "    "@ + f.ret.c_type@ + " "@ + f.name + "("@ + arg_list(ArgStyle::CParam, f.args) + ");\n"@
}

/// The declarations for the first `k` functions of `fs`.
pub open spec fn rapi_decls(fs: Seq<FuncModel>, k: nat) -> Seq<char>
    decreases k,
{
    if k == 0 {
        seq![]
    } else {
        rapi_decls(fs, (k - 1) as nat) + rapi_decl(fs[k - 1])
    }
}

/// The C++ types that carry one argument: a buffer is a pointer and a length.
pub open spec fn arg_c_types(a: (Seq<char>, TypeSpec)) -> Seq<Seq<char>> {
    if a.1.is_buf_like {
        seq![a.1.c_type@, usize_type().c_type@]
    } else {
        seq![a.1.c_type@]
    }
}

/// The C++ types that carry the first `k` arguments, one after the other.
pub open spec fn c_param_types(args: Seq<(Seq<char>, TypeSpec)>, k: nat) -> Seq<Seq<char>>
    decreases k,
{
    if k == 0 {
        seq![]
    } else {
        c_param_types(args, (k - 1) as nat) + arg_c_types(args[k - 1])
    }
}

/// The parameters of a handler: each type with its name `a<position>`.
pub open spec fn numbered_params(types: Seq<Seq<char>>) -> Seq<Seq<char>> {
    Seq::new(types.len(), |i: int| types[i] + " a"@ + decimal(i as nat))
}

/// The return type of a handler in C++: `void` for `()`.
pub open spec fn handler_ret(ret: TypeSpec) -> Seq<char> {
    if ret.rust_type@ == "()"@ {
        "void"@
    } else {
        ret.c_type@
    }
}

/// The declaration of the handler that the module implements for `f`: pure
/// virtual, but for the logger, which the generated file defines.
pub open spec fn handler_decl(f: FuncModel) -> Seq<char> {
    "    virtual "@ + handler_ret(f.ret) + " "@ + f.name + "("@ + join_seq(
        numbered_params(c_param_types(f.args, f.args.len())),
        ", "@,
    ) + (if f.name == "uerust_log"@ {
        ");\n"@
    } else {
        ") = 0;\n"@
    })
}

/// The handler declarations for the first `k` functions of `fs`.
pub open spec fn handler_decls(fs: Seq<FuncModel>, k: nat) -> Seq<char>
    decreases k,
{
    if k == 0 {
        seq![]
    } else {
        handler_decls(fs, (k - 1) as nat) + handler_decl(fs[k - 1])
    }
}

/// The text of `UERustModuleImpl.h`.
pub open spec fn module_header_text(cfuncs: Seq<FuncModel>, rfuncs: Seq<FuncModel>) -> Seq<char> {
    HEADER_HEAD@ + rapi_decls(rfuncs, rfuncs.len()) + HEADER_MIDDLE@ + handler_decls(
        cfuncs,
        cfuncs.len(),
    ) + "};\n"@
}

fn push_rapi_decl(out: &mut String, f: &FuncSpec)
    ensures
        final(out)@ == old(out)@ + rapi_decl(f@),
{
    let ghost start = out@;
    append_str(out, "    ");
    append_str(out, f.ret.c_type);
    append_str(out, " ");
    append_str(out, f.name.as_str());
    append_str(out, "(");
    let args = arg_list_string(ArgStyle::CParam, f);
    append_str(out, args.as_str());
    append_str(out, ");\n");
    assert(out@ =~= start + rapi_decl(f@));
}

fn numbered_param(ty: &str, i: usize) -> (r: String)
    ensures
        r@ == ty@ + " a"@ + decimal(i as nat),
{
    let mut s = String::new();
    append_str(&mut s, ty);
    append_str(&mut s, " a");
    let num = decimal_string(i);
    append_str(&mut s, num.as_str());
    assert(s@ =~= ty@ + " a"@ + decimal(i as nat));
    s
}

fn handler_params(f: &FuncSpec) -> (r: String)
    ensures
        r@ == join_seq(numbered_params(c_param_types(f@.args, f@.args.len())), ", "@),
{
    let usize_t = usize_type_spec();
    let mut parts: Vec<String> = Vec::new();
    let n = f.args.len();
    for i in 0..n
        invariant
            n == f.args@.len(),
            usize_t == usize_type(),
            parts@.len() == c_param_types(f@.args, i as nat).len(),
            forall|j: int|
                0 <= j < parts@.len() ==> #[trigger] parts@[j]@ == numbered_params(
                    c_param_types(f@.args, i as nat),
                )[j],
    {
        let t = &f.args[i].1;
        assert(f@.args[i as int].1 == *t);
        let ghost before = c_param_types(f@.args, i as nat);
        let ghost after = c_param_types(f@.args, (i + 1) as nat);
        assert(after == before + arg_c_types(f@.args[i as int]));
        let p = numbered_param(t.c_type, parts.len());
        parts.push(p);
        if t.is_buf_like {
            let q = numbered_param(usize_t.c_type, parts.len());
            parts.push(q);
        }
    }
    assert(views(parts@) =~= numbered_params(c_param_types(f@.args, n as nat)));
    join(&parts, ", ")
}

fn push_handler_decl(out: &mut String, f: &FuncSpec)
    ensures
        final(out)@ == old(out)@ + handler_decl(f@),
{
    let ghost start = out@;
    append_str(out, "    virtual ");
    if str_eq(f.ret.rust_type, "()") {
        append_str(out, "void");
    } else {
        append_str(out, f.ret.c_type);
    }
    append_str(out, " ");
    append_str(out, f.name.as_str());
    append_str(out, "(");
    let params = handler_params(f);
    append_str(out, params.as_str());
    if str_eq(f.name.as_str(), "uerust_log") {
        append_str(out, ");\n");
    } else {
        append_str(out, ") = 0;\n");
    }
    assert(out@ =~= start + handler_decl(f@));
}

/// Writes `UERustModuleImpl.h` for the two function lists.
pub fn module_header(cfuncs: &Vec<FuncSpec>, rfuncs: &Vec<FuncSpec>) -> (r: String)
    ensures
        r@ == module_header_text(models(cfuncs@), models(rfuncs@)),
{
    let mut out = String::new();
    append_str(&mut out, HEADER_HEAD);
    let ghost s0 = out@;
    let nr = rfuncs.len();
    for i in 0..nr
        invariant
            nr == rfuncs@.len(),
            out@ == s0 + rapi_decls(models(rfuncs@), i as nat),
    {
        assert(models(rfuncs@)[i as int] == rfuncs@[i as int]@);
        push_rapi_decl(&mut out, &rfuncs[i]);
    }
    append_str(&mut out, HEADER_MIDDLE);
    let ghost s1 = out@;
    let nc = cfuncs.len();
    for i in 0..nc
        invariant
            nc == cfuncs@.len(),
            out@ == s1 + handler_decls(models(cfuncs@), i as nat),
    {
        assert(models(cfuncs@)[i as int] == cfuncs@[i as int]@);
        push_handler_decl(&mut out, &cfuncs[i]);
    }
    append_str(&mut out, "};\n");
    assert(out@ =~= module_header_text(models(cfuncs@), models(rfuncs@)));
    out
}

// ---------------------------------------------------------------------------
// The implementation file
// ---------------------------------------------------------------------------

/// The C++ enum `name` of method ids, without the blank line after it.
pub open spec fn cpp_id_enum_body(name: Seq<char>, fs: Seq<FuncModel>) -> Seq<char> {
    "enum class "@ + name + " {\n"@ + id_lines(fs, fs.len()) + "};\n"@
}

/// The C++ enum `name` of method ids, or nothing for no functions.
pub open spec fn cpp_id_enum(name: Seq<char>, fs: Seq<FuncModel>) -> Seq<char> {
    if fs.len() == 0 {
        seq![]
    } else {
        cpp_id_enum_body(name, fs) + "\n"@
    }
}

fn push_cpp_id_enum(out: &mut String, name: &str, fs: &Vec<FuncSpec>)
    ensures
        final(out)@ == old(out)@ + cpp_id_enum(name@, models(fs@)),
{
    let ghost start = out@;
    if fs.len() != 0 {
        append_str(out, "enum class ");
        append_str(out, name);
        append_str(out, " {\n");
        push_id_lines(out, fs);
        append_str(out, "};\n");
        append_str(out, "\n");
    }
    assert(out@ =~= start + cpp_id_enum(name@, models(fs@)));
}

/// The lines of the dispatch that read argument `i` of a call from Rust.
pub open spec fn cpp_arg_read(a: (Seq<char>, TypeSpec), i: nat) -> Seq<char> {
    if a.1.is_buf_like {
        "                            "@ + a.1.c_type@ + " "@ + a.0 + "_data = args["@ + decimal(i)
            + "].value.buf_val.ptr;\n"@ + "                            "@ + usize_type().c_type@
            + " "@ + a.0 + "_len = args["@ + decimal(i) + "].value.buf_val.len;\n"@
    } else {
        "                            "@ + a.1.c_type@ + " const& "@ + a.0 + " = args["@ + decimal(i)
            + "].value."@ + a.1.rust_type@ + "_val;\n"@
    }
}

/// The lines that read the first `k` arguments.
pub open spec fn cpp_arg_reads(args: Seq<(Seq<char>, TypeSpec)>, k: nat) -> Seq<char>
    decreases k,
{
    if k == 0 {
        seq![]
    } else {
        cpp_arg_reads(args, (k - 1) as nat) + cpp_arg_read(args[k - 1], (k - 1) as nat)
    }
}

/// The call of the handler and the return of its result.
pub open spec fn dispatch_call(f: FuncModel) -> Seq<char> {
    if f.ret.rust_type@ == "()"@ {
        "                            "@ + f.name + "("@ + arg_list(ArgStyle::CallArg, f.args)
            + ");\n"@ + "                            return Return { .is_some = false };\n"@
    } else {
        "                            return Return { .is_some = true, .value = Argument { .tag = ArgTag::"@
            + f.ret.tag@ + ", .value = ArgType { ."@ + f.ret.rust_type@ + "_val = uerust_"@ + f.name
            + "("@ + arg_list(ArgStyle::CallArg, f.args) + ") } } };\n"@
    }
}

/// The opening of the dispatch branch for the function at `idx`.
pub open spec fn dispatch_head(f: FuncModel, idx: nat) -> Seq<char> {
    (if idx == 0 {
        "                        "@
    } else {
        seq![]
    }) + "if ((MethodId)method_id == MethodId::"@ + f.name + ") {\n"@
}

/// The close of the dispatch branch at `idx` of `n`.
pub open spec fn dispatch_close(idx: nat, n: nat) -> Seq<char> {
    if idx + 1 == n {
        "                        }\n"@
    } else {
        "                        } else "@
    }
}

/// The branch of the dispatch of calls from Rust for the function at `idx` of
/// `n`.
pub open spec fn dispatch_branch(f: FuncModel, idx: nat, n: nat) -> Seq<char> {
    dispatch_head(f, idx) + cpp_arg_reads(f.args, f.args.len()) + dispatch_call(f) + dispatch_close(
        idx,
        n,
    )
}

/// The dispatch branches for the first `k` functions of `fs`.
pub open spec fn dispatch_branches(fs: Seq<FuncModel>, k: nat) -> Seq<char>
    decreases k,
{
    if k == 0 {
        seq![]
    } else {
        dispatch_branches(fs, (k - 1) as nat) + dispatch_branch(fs[k - 1], (k - 1) as nat, fs.len())
    }
}

fn push_cpp_arg_read(out: &mut String, key: &String, t: &TypeSpec, i: usize, usize_t: &TypeSpec)
    requires
        *usize_t == usize_type(),
    ensures
        final(out)@ == old(out)@ + cpp_arg_read((key@, *t), i as nat),
{
    let ghost before = out@;
    let num = decimal_string(i);
    append_str(out, "                            ");
    append_str(out, t.c_type);
    if t.is_buf_like {
        append_str(out, " ");
        append_str(out, key.as_str());
        append_str(out, "_data = args[");
        append_str(out, num.as_str());
        append_str(out, "].value.buf_val.ptr;\n");
        append_str(out, "                            ");
        append_str(out, usize_t.c_type);
        append_str(out, " ");
        append_str(out, key.as_str());
        append_str(out, "_len = args[");
        append_str(out, num.as_str());
        append_str(out, "].value.buf_val.len;\n");
    } else {
        append_str(out, " const& ");
        append_str(out, key.as_str());
        append_str(out, " = args[");
        append_str(out, num.as_str());
        append_str(out, "].value.");
        append_str(out, t.rust_type);
        append_str(out, "_val;\n");
    }
    assert(out@ =~= before + cpp_arg_read((key@, *t), i as nat));
}

fn push_cpp_arg_reads(out: &mut String, f: &FuncSpec)
    ensures
        final(out)@ == old(out)@ + cpp_arg_reads(f@.args, f@.args.len()),
{
    let usize_t = usize_type_spec();
    let ghost start = out@;
    let n = f.args.len();
    for i in 0..n
        invariant
            n == f.args@.len(),
            usize_t == usize_type(),
            out@ == start + cpp_arg_reads(f@.args, i as nat),
    {
        assert(f@.args[i as int] == (f.args@[i as int].0@, f.args@[i as int].1));
        push_cpp_arg_read(out, &f.args[i].0, &f.args[i].1, i, &usize_t);
    }
}

fn push_dispatch_call(out: &mut String, f: &FuncSpec)
    ensures
        final(out)@ == old(out)@ + dispatch_call(f@),
{
    let ghost start = out@;
    let args = arg_list_string(ArgStyle::CallArg, f);
    if str_eq(f.ret.rust_type, "()") {
        append_str(out, "                            ");
        append_str(out, f.name.as_str());
        append_str(out, "(");
        append_str(out, args.as_str());
        append_str(out, ");\n");
        append_str(out, "                            return Return { .is_some = false };\n");
    } else {
        append_str(
            out,
            "                            return Return { .is_some = true, .value = Argument { .tag = ArgTag::",
        );
        append_str(out, f.ret.tag);
        append_str(out, ", .value = ArgType { .");
        append_str(out, f.ret.rust_type);
        append_str(out, "_val = uerust_");
        append_str(out, f.name.as_str());
        append_str(out, "(");
        append_str(out, args.as_str());
        append_str(out, ") } } };\n");
    }
    assert(out@ =~= start + dispatch_call(f@));
}

fn push_dispatch_branch(out: &mut String, f: &FuncSpec, idx: usize, n: usize)
    ensures
        final(out)@ == old(out)@ + dispatch_branch(f@, idx as nat, n as nat),
{
    let ghost start = out@;
    if idx == 0 {
        append_str(out, "                        ");
    }
    append_str(out, "if ((MethodId)method_id == MethodId::");
    append_str(out, f.name.as_str());
    append_str(out, ") {\n");
    assert(out@ =~= start + dispatch_head(f@, idx as nat));
    push_cpp_arg_reads(out, f);
    push_dispatch_call(out, f);
    let ghost s2 = out@;
    if idx as u128 + 1 == n as u128 {
        append_str(out, "                        }\n");
    } else {
        append_str(out, "                        } else ");
    }
    assert(out@ == s2 + dispatch_close(idx as nat, n as nat));
    assert(out@ =~= start + dispatch_branch(f@, idx as nat, n as nat));
}

/// The element of the argument array for one argument of a call into Rust.
pub open spec fn rapi_arg_elem(a: (Seq<char>, TypeSpec)) -> Seq<char> {
    "        Argument { .tag = ArgTag::"@ + a.1.tag@ + ", .value = ArgType { ."@ + ascii_lower(a.1.tag@)
        + "_val = "@ + a.0 + " } },\n"@
}

/// The elements for the first `k` arguments.
pub open spec fn rapi_arg_elems(args: Seq<(Seq<char>, TypeSpec)>, k: nat) -> Seq<char>
    decreases k,
{
    if k == 0 {
        seq![]
    } else {
        rapi_arg_elems(args, (k - 1) as nat) + rapi_arg_elem(args[k - 1])
    }
}

/// The argument array of a call into Rust: written on one line for at most
/// one argument.
pub open spec fn rapi_args_array(args: Seq<(Seq<char>, TypeSpec)>) -> Seq<char> {
    if args.len() == 0 {
        "    Argument args[] = {};\n"@
    } else if args.len() == 1 {
        "    Argument args[] = { Argument { .tag = ArgTag::"@ + args[0].1.tag@ + ", .value = ArgType { ."@
            + ascii_lower(args[0].1.tag@) + "_val = "@ + args[0].0 + " } }, };\n"@
    } else {
        "    Argument args[] = {\n"@ + rapi_arg_elems(args, args.len()) + "    };\n"@
    }
}

/// The call into Rust and, for a function that returns a value, its return.
pub open spec fn rapi_invoke(f: FuncModel) -> Seq<char> {
    if f.ret.rust_type@ == "()"@ {
        "    subsystem->RInvoke((uint16_t)RMethodId::"@ + f.name + ", args, "@ + decimal(f.args.len())
            + ");\n"@
    } else {
        "    return subsystem->RInvoke((uint16_t)RMethodId::"@ + f.name + ", args, "@ + decimal(
            f.args.len(),
        ) + ").value.value."@ + ascii_lower(f.ret.tag@) + "_val;\n"@
    }
}

/// The definition of the member of `UERustApi` through which C++ calls `f`.
pub open spec fn rapi_def(f: FuncModel) -> Seq<char> {
    f.ret.c_type@ + " UERustApi::"@ + f.name + "("@ + arg_list(ArgStyle::CParam, f.args) + ") {\n"@
        + rapi_args_array(f.args) + rapi_invoke(f) + "}\n"@
}

/// The definitions for the first `k` functions of `fs`.
pub open spec fn rapi_defs(fs: Seq<FuncModel>, k: nat) -> Seq<char>
    decreases k,
{
    if k == 0 {
        seq![]
    } else {
        rapi_defs(fs, (k - 1) as nat) + rapi_def(fs[k - 1])
    }
}

fn push_rapi_arg_elem(out: &mut String, key: &String, t: &TypeSpec)
    ensures
        final(out)@ == old(out)@ + rapi_arg_elem((key@, *t)),
{
    let ghost start = out@;
    append_str(out, "        Argument { .tag = ArgTag::");
    append_str(out, t.tag);
    append_str(out, ", .value = ArgType { .");
    let lower = ascii_lowercase(t.tag);
    append_str(out, lower.as_str());
    append_str(out, "_val = ");
    append_str(out, key.as_str());
    append_str(out, " } },\n");
    assert(out@ =~= start + rapi_arg_elem((key@, *t)));
}

fn push_rapi_args_array(out: &mut String, f: &FuncSpec)
    ensures
        final(out)@ == old(out)@ + rapi_args_array(f@.args),
{
    let ghost start = out@;
    let n = f.args.len();
    if n == 0 {
        append_str(out, "    Argument args[] = {};\n");
    } else if n == 1 {
        let key = &f.args[0].0;
        let t = &f.args[0].1;
        assert(f@.args[0] == (key@, *t));
        append_str(out, "    Argument args[] = { Argument { .tag = ArgTag::");
        append_str(out, t.tag);
        append_str(out, ", .value = ArgType { .");
        let lower = ascii_lowercase(t.tag);
        append_str(out, lower.as_str());
        append_str(out, "_val = ");
        append_str(out, key.as_str());
        append_str(out, " } }, };\n");
    } else {
        append_str(out, "    Argument args[] = {\n");
        let ghost s1 = out@;
        for i in 0..n
            invariant
                n == f.args@.len(),
                out@ == s1 + rapi_arg_elems(f@.args, i as nat),
        {
            assert(f@.args[i as int] == (f.args@[i as int].0@, f.args@[i as int].1));
            push_rapi_arg_elem(out, &f.args[i].0, &f.args[i].1);
        }
        append_str(out, "    };\n");
    }
    assert(out@ =~= start + rapi_args_array(f@.args));
}

fn push_rapi_def(out: &mut String, f: &FuncSpec)
    ensures
        final(out)@ == old(out)@ + rapi_def(f@),
{
    let ghost start = out@;
    append_str(out, f.ret.c_type);
    append_str(out, " UERustApi::");
    append_str(out, f.name.as_str());
    append_str(out, "(");
    let args = arg_list_string(ArgStyle::CParam, f);
    append_str(out, args.as_str());
    append_str(out, ") {\n");
    push_rapi_args_array(out, f);
    let ghost s1 = out@;
    let num = decimal_string(f.args.len());
    if str_eq(f.ret.rust_type, "()") {
        append_str(out, "    subsystem->RInvoke((uint16_t)RMethodId::");
        append_str(out, f.name.as_str());
        append_str(out, ", args, ");
        append_str(out, num.as_str());
        append_str(out, ");\n");
    } else {
        append_str(out, "    return subsystem->RInvoke((uint16_t)RMethodId::");
        append_str(out, f.name.as_str());
        append_str(out, ", args, ");
        append_str(out, num.as_str());
        append_str(out, ").value.value.");
        let lower = ascii_lowercase(f.ret.tag);
        append_str(out, lower.as_str());
        append_str(out, "_val;\n");
    }
    assert(out@ =~= s1 + rapi_invoke(f@));
    append_str(out, "}\n");
    assert(out@ =~= start + rapi_def(f@));
}

/// The text of `UERustModuleImpl.cpp`.
pub open spec fn module_cpp_text(cfuncs: Seq<FuncModel>, rfuncs: Seq<FuncModel>) -> Seq<char> {
    CPP_HEAD@ + cpp_id_enum("MethodId"@, cfuncs) + cpp_id_enum("RMethodId"@, rfuncs) + CPP_STARTUP@
        + dispatch_branches(cfuncs, cfuncs.len()) + CPP_AFTER_DISPATCH@ + rapi_defs(
        rfuncs,
        rfuncs.len(),
    ) + CPP_LOG@
}

/// Writes `UERustModuleImpl.cpp` for the two function lists.
pub fn module_cpp(cfuncs: &Vec<FuncSpec>, rfuncs: &Vec<FuncSpec>) -> (r: String)
    ensures
        r@ == module_cpp_text(models(cfuncs@), models(rfuncs@)),
{
    let mut out = String::new();
    append_str(&mut out, CPP_HEAD);
    push_cpp_id_enum(&mut out, "MethodId", cfuncs);
    push_cpp_id_enum(&mut out, "RMethodId", rfuncs);
    append_str(&mut out, CPP_STARTUP);
    let ghost s0 = out@;
    let nc = cfuncs.len();
    for i in 0..nc
        invariant
            nc == cfuncs@.len(),
            out@ == s0 + dispatch_branches(models(cfuncs@), i as nat),
    {
        assert(models(cfuncs@)[i as int] == cfuncs@[i as int]@);
        push_dispatch_branch(&mut out, &cfuncs[i], i, nc);
    }
    append_str(&mut out, CPP_AFTER_DISPATCH);
    let ghost s1 = out@;
    let nr = rfuncs.len();
    for i in 0..nr
        invariant
            nr == rfuncs@.len(),
            out@ == s1 + rapi_defs(models(rfuncs@), i as nat),
    {
        assert(models(rfuncs@)[i as int] == rfuncs@[i as int]@);
        push_rapi_def(&mut out, &rfuncs[i]);
    }
    append_str(&mut out, CPP_LOG);
    assert(out@ =~= module_cpp_text(models(cfuncs@), models(rfuncs@)));
    out
}

// ---------------------------------------------------------------------------
// The two sides agree
// ---------------------------------------------------------------------------

/// Whether `x` occurs in `s`.
pub open spec fn occurs_in(x: Seq<char>, s: Seq<char>) -> bool {
    exists|p: Seq<char>, q: Seq<char>| #[trigger] (p + x + q) == s
}

/// The enumerators list the functions in order: the one at `i` comes after
/// those before it and has the id `i + 1`.
pub proof fn lemma_id_lines_number_in_order(fs: Seq<FuncModel>, i: int)
    requires
        0 <= i < fs.len(),
    ensures
        (id_lines(fs, i as nat) + id_line(fs, i)).is_prefix_of(id_lines(fs, fs.len())),
{
    lemma_id_lines_prefix(fs, (i + 1) as nat, fs.len());
}

proof fn lemma_id_lines_prefix(fs: Seq<FuncModel>, j: nat, k: nat)
    requires
        j <= k,
    ensures
        id_lines(fs, j).is_prefix_of(id_lines(fs, k)),
    decreases k,
{
    if j < k {
        lemma_id_lines_prefix(fs, j, (k - 1) as nat);
        assert(id_lines(fs, k).subrange(0, id_lines(fs, j).len() as int) =~= id_lines(
            fs,
            (k - 1) as nat,
        ).subrange(0, id_lines(fs, j).len() as int));
    } else {
        assert(id_lines(fs, k).subrange(0, id_lines(fs, j).len() as int) =~= id_lines(fs, j));
    }
}

pub proof fn lemma_occurs_between(a: Seq<char>, x: Seq<char>, b: Seq<char>)
    ensures
        occurs_in(x, a + x + b),
{
    assert((a + x + b) == a + x + b);
}

pub proof fn lemma_occurs_after(x: Seq<char>, s: Seq<char>, t: Seq<char>)
    requires
        occurs_in(x, s),
    ensures
        occurs_in(x, s + t),
{
    let (p, q) = choose|p: Seq<char>, q: Seq<char>| #[trigger] (p + x + q) == s;
    assert(p + x + (q + t) =~= s + t);
}

pub proof fn lemma_occurs_before(x: Seq<char>, t: Seq<char>, s: Seq<char>)
    requires
        occurs_in(x, s),
    ensures
        occurs_in(x, t + s),
{
    let (p, q) = choose|p: Seq<char>, q: Seq<char>| #[trigger] (p + x + q) == s;
    assert((t + p) + x + q =~= t + s);
}

/// What occurs in a part occurs in the whole.
pub proof fn lemma_occurs_trans(x: Seq<char>, y: Seq<char>, z: Seq<char>)
    requires
        occurs_in(x, y),
        occurs_in(y, z),
    ensures
        occurs_in(x, z),
{
    let (p, q) = choose|p: Seq<char>, q: Seq<char>| #[trigger] (p + x + q) == y;
    let (p2, q2) = choose|p: Seq<char>, q: Seq<char>| #[trigger] (p + y + q) == z;
    assert((p2 + p) + x + (q + q2) =~= z);
}

/// A string occurs in itself.
pub proof fn lemma_occurs_self(x: Seq<char>)
    ensures
        occurs_in(x, x),
{
    assert(Seq::<char>::empty() + x + Seq::<char>::empty() =~= x);
}

/// Rust and C++ number the functions alike: `bindings.rs` and
/// `UERustModuleImpl.cpp` hold the same enumerators for `MethodId` (the
/// functions that Rust calls) and for `RMethodId` (those that C++ calls).
pub proof fn lemma_method_ids_agree(cfuncs: Seq<FuncModel>, rfuncs: Seq<FuncModel>)
    ensures
        cfuncs.len() > 0 ==> occurs_in(
            rust_id_enum_body("MethodId"@, cfuncs),
            rust_bindings_text(cfuncs, rfuncs),
        ),
        cfuncs.len() > 0 ==> occurs_in(
            cpp_id_enum_body("MethodId"@, cfuncs),
            module_cpp_text(cfuncs, rfuncs),
        ),
        rfuncs.len() > 0 ==> occurs_in(
            rust_id_enum_body("RMethodId"@, rfuncs),
            rust_bindings_text(cfuncs, rfuncs),
        ),
        rfuncs.len() > 0 ==> occurs_in(
            cpp_id_enum_body("RMethodId"@, rfuncs),
            module_cpp_text(cfuncs, rfuncs),
        ),
{
    let head = RUST_HEAD@ + rinvoke_branches(rfuncs, rfuncs.len()) + RUST_RUNTIME@;
    let e1 = rust_id_enum("MethodId"@, cfuncs);
    let e2 = rust_id_enum("RMethodId"@, rfuncs);
    let inv = invoke_fns(cfuncs, cfuncs.len());
    let c1 = cpp_id_enum("MethodId"@, cfuncs);
    let c2 = cpp_id_enum("RMethodId"@, rfuncs);
    let dispatch = dispatch_branches(cfuncs, cfuncs.len());
    let defs = rapi_defs(rfuncs, rfuncs.len());
    assert(rust_bindings_text(cfuncs, rfuncs) == head + e1 + e2 + inv + RUST_FFI_MACRO@);
    assert(module_cpp_text(cfuncs, rfuncs) == CPP_HEAD@ + c1 + c2 + CPP_STARTUP@ + dispatch
        + CPP_AFTER_DISPATCH@ + defs + CPP_LOG@);
    if cfuncs.len() > 0 {
        let x = rust_id_enum_body("MethodId"@, cfuncs);
        lemma_occurs_between(id_enum_attrs(), x, "\n"@);
        lemma_occurs_before(x, head, e1);
        lemma_occurs_after(x, head + e1, e2);
        lemma_occurs_after(x, head + e1 + e2, inv);
        lemma_occurs_after(x, head + e1 + e2 + inv, RUST_FFI_MACRO@);
        let y = cpp_id_enum_body("MethodId"@, cfuncs);
        lemma_occurs_between(Seq::<char>::empty(), y, "\n"@);
        assert(Seq::<char>::empty() + y + "\n"@ =~= c1);
        lemma_occurs_before(y, CPP_HEAD@, c1);
        lemma_occurs_after(y, CPP_HEAD@ + c1, c2);
        lemma_occurs_after(y, CPP_HEAD@ + c1 + c2, CPP_STARTUP@);
        lemma_occurs_after(y, CPP_HEAD@ + c1 + c2 + CPP_STARTUP@, dispatch);
        lemma_occurs_after(y, CPP_HEAD@ + c1 + c2 + CPP_STARTUP@ + dispatch, CPP_AFTER_DISPATCH@);
        lemma_occurs_after(y, CPP_HEAD@ + c1 + c2 + CPP_STARTUP@ + dispatch + CPP_AFTER_DISPATCH@, defs);
        lemma_occurs_after(y, CPP_HEAD@ + c1 + c2 + CPP_STARTUP@ + dispatch + CPP_AFTER_DISPATCH@ + defs, CPP_LOG@);
    }
    if rfuncs.len() > 0 {
        let x = rust_id_enum_body("RMethodId"@, rfuncs);
        lemma_occurs_between(id_enum_attrs(), x, "\n"@);
        lemma_occurs_before(x, head + e1, e2);
        lemma_occurs_after(x, head + e1 + e2, inv);
        lemma_occurs_after(x, head + e1 + e2 + inv, RUST_FFI_MACRO@);
        let y = cpp_id_enum_body("RMethodId"@, rfuncs);
        lemma_occurs_between(Seq::<char>::empty(), y, "\n"@);
        assert(Seq::<char>::empty() + y + "\n"@ =~= c2);
        lemma_occurs_before(y, CPP_HEAD@ + c1, c2);
        lemma_occurs_after(y, CPP_HEAD@ + c1 + c2, CPP_STARTUP@);
        lemma_occurs_after(y, CPP_HEAD@ + c1 + c2 + CPP_STARTUP@, dispatch);
        lemma_occurs_after(y, CPP_HEAD@ + c1 + c2 + CPP_STARTUP@ + dispatch, CPP_AFTER_DISPATCH@);
        lemma_occurs_after(y, CPP_HEAD@ + c1 + c2 + CPP_STARTUP@ + dispatch + CPP_AFTER_DISPATCH@, defs);
        lemma_occurs_after(y, CPP_HEAD@ + c1 + c2 + CPP_STARTUP@ + dispatch + CPP_AFTER_DISPATCH@ + defs, CPP_LOG@);
    }
}

}

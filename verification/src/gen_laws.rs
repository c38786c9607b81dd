//! Laws of the generated files: each side reads and writes what the other
//! side expects.
use vstd::prelude::*;

use crate::api::FuncModel;
use crate::cpp_gen::{
    c_param_types, handler_decl, handler_decls, lemma_occurs_after, lemma_occurs_before,
    lemma_occurs_between, lemma_occurs_self, lemma_occurs_trans, module_cpp_text,
    module_header_text, numbered_params, occurs_in, rapi_def, rapi_defs, rapi_invoke,
    rapi_args_array, rapi_decls, cpp_id_enum, dispatch_branches, dispatch_branch, dispatch_head,
    dispatch_call, dispatch_close, cpp_arg_read, cpp_arg_reads, rapi_arg_elem, rapi_arg_elems,
};
use crate::rust_gen::{
    ArgStyle, arg_list, arg_read_line, arg_read_lines, arg_reads, branch_close, branch_head,
    invoke_fns, macro_comment, rinvoke_branch, rinvoke_branches, rinvoke_call, rust_bindings_text,
    rust_id_enum, invoke_fn, arg_value, arg_values,
};
use crate::templates::{
    CPP_AFTER_DISPATCH, CPP_HEAD, CPP_LOG, CPP_STARTUP, HEADER_HEAD, HEADER_MIDDLE, RUST_FFI_MACRO,
    RUST_HEAD, RUST_RUNTIME,
};
use crate::text::{ascii_lower, decimal, join_seq};
use crate::types::TypeSpec;

verus! {

// ---------------------------------------------------------------------------
// Pieces of the recursive concatenations occur in them
// ---------------------------------------------------------------------------

proof fn lemma_occurs_at_end(a: Seq<char>, x: Seq<char>)
    ensures
        occurs_in(x, a + x),
{
    lemma_occurs_between(a, x, Seq::<char>::empty());
    assert(a + x + Seq::<char>::empty() =~= a + x);
}

proof fn lemma_arg_reads_has(args: Seq<(Seq<char>, TypeSpec)>, n: nat, i: int)
    requires
        0 <= i < n,
    ensures
        occurs_in(arg_read_lines(args[i], i as nat), arg_reads(args, n)),
    decreases n,
{
    if i == n - 1 {
        lemma_occurs_at_end(arg_reads(args, (n - 1) as nat), arg_read_lines(args[i], i as nat));
    } else {
        lemma_arg_reads_has(args, (n - 1) as nat, i);
        lemma_occurs_after(
            arg_read_lines(args[i], i as nat),
            arg_reads(args, (n - 1) as nat),
            arg_read_lines(args[n - 1], (n - 1) as nat),
        );
    }
}

proof fn lemma_rinvoke_branches_has(fs: Seq<FuncModel>, n: nat, k: int)
    requires
        0 <= k < n,
    ensures
        occurs_in(rinvoke_branch(fs[k], k as nat, fs.len()), rinvoke_branches(fs, n)),
    decreases n,
{
    let piece = rinvoke_branch(fs[k], k as nat, fs.len());
    if k == n - 1 {
        lemma_occurs_at_end(rinvoke_branches(fs, (n - 1) as nat), piece);
    } else {
        lemma_rinvoke_branches_has(fs, (n - 1) as nat, k);
        lemma_occurs_after(
            piece,
            rinvoke_branches(fs, (n - 1) as nat),
            rinvoke_branch(fs[n - 1], (n - 1) as nat, fs.len()),
        );
    }
}

proof fn lemma_rapi_defs_has(fs: Seq<FuncModel>, n: nat, k: int)
    requires
        0 <= k < n,
    ensures
        occurs_in(rapi_def(fs[k]), rapi_defs(fs, n)),
    decreases n,
{
    if k == n - 1 {
        lemma_occurs_at_end(rapi_defs(fs, (n - 1) as nat), rapi_def(fs[k]));
    } else {
        lemma_rapi_defs_has(fs, (n - 1) as nat, k);
        lemma_occurs_after(rapi_def(fs[k]), rapi_defs(fs, (n - 1) as nat), rapi_def(fs[n - 1]));
    }
}

proof fn lemma_handler_decls_has(fs: Seq<FuncModel>, n: nat, k: int)
    requires
        0 <= k < n,
    ensures
        occurs_in(handler_decl(fs[k]), handler_decls(fs, n)),
    decreases n,
{
    if k == n - 1 {
        lemma_occurs_at_end(handler_decls(fs, (n - 1) as nat), handler_decl(fs[k]));
    } else {
        lemma_handler_decls_has(fs, (n - 1) as nat, k);
        lemma_occurs_after(handler_decl(fs[k]), handler_decls(fs, (n - 1) as nat), handler_decl(fs[n - 1]));
    }
}

// ---------------------------------------------------------------------------
// Calls from C++ into Rust
// ---------------------------------------------------------------------------

/// Where a function that C++ calls in Rust takes a buffer, `rinvoke` reads the
/// buffer's data checking the argument's own tag (`Buf` for `&str`, `String`
/// for `String`) and taking the union field of that tag in small letters: the
/// tag under which the C++ side sends it.
pub proof fn lemma_rinvoke_reads_buffer_under_its_tag(
    cfuncs: Seq<FuncModel>,
    rfuncs: Seq<FuncModel>,
    k: int,
    i: int,
)
    requires
        0 <= k < rfuncs.len(),
        0 <= i < rfuncs[k].args.len(),
        rfuncs[k].args[i].1.is_buf_like,
    ensures
        occurs_in(
            "        let Some("@ + (rfuncs[k].args[i].0 + "_data"@) + ") = args.get("@ + decimal(
                i as nat,
            ) + ").map(|v| { assert_eq!(v.tag, ArgTag::"@ + rfuncs[k].args[i].1.tag@
                + "); unsafe { v.value."@ + ascii_lower(rfuncs[k].args[i].1.tag@)
                + "_val } }) else { return Return::none() };\n"@,
            rust_bindings_text(cfuncs, rfuncs),
        ),
{
    let f = rfuncs[k];
    let a = f.args[i];
    let data = arg_read_line(a.0 + "_data"@, i as nat, a.1.tag@);
    let len_line = arg_read_line(a.0 + "_len"@, i as nat, crate::types::usize_type().tag@);
    lemma_occurs_between(Seq::<char>::empty(), data, len_line);
    assert(Seq::<char>::empty() + data + len_line =~= arg_read_lines(a, i as nat));
    lemma_arg_reads_has(f.args, f.args.len(), i);
    lemma_occurs_trans(data, arg_read_lines(a, i as nat), arg_reads(f.args, f.args.len()));
    let reads = arg_reads(f.args, f.args.len());
    let head = branch_head(f, k as nat);
    lemma_occurs_self(reads);
    lemma_occurs_before(reads, head, reads);
    lemma_occurs_after(reads, head + reads, macro_comment(f));
    lemma_occurs_after(reads, head + reads + macro_comment(f), rinvoke_call(f));
    lemma_occurs_after(
        reads,
        head + reads + macro_comment(f) + rinvoke_call(f),
        branch_close(k as nat, rfuncs.len()),
    );
    lemma_occurs_trans(data, reads, rinvoke_branch(f, k as nat, rfuncs.len()));
    lemma_rinvoke_branches_has(rfuncs, rfuncs.len(), k);
    let rb = rinvoke_branches(rfuncs, rfuncs.len());
    lemma_occurs_trans(data, rinvoke_branch(f, k as nat, rfuncs.len()), rb);
    lemma_occurs_self(rb);
    lemma_occurs_before(rb, RUST_HEAD@, rb);
    let e1 = rust_id_enum("MethodId"@, cfuncs);
    let e2 = rust_id_enum("RMethodId"@, rfuncs);
    let inv = invoke_fns(cfuncs, cfuncs.len());
    lemma_occurs_after(rb, RUST_HEAD@ + rb, RUST_RUNTIME@);
    lemma_occurs_after(rb, RUST_HEAD@ + rb + RUST_RUNTIME@, e1);
    lemma_occurs_after(rb, RUST_HEAD@ + rb + RUST_RUNTIME@ + e1, e2);
    lemma_occurs_after(rb, RUST_HEAD@ + rb + RUST_RUNTIME@ + e1 + e2, inv);
    lemma_occurs_after(rb, RUST_HEAD@ + rb + RUST_RUNTIME@ + e1 + e2 + inv, RUST_FFI_MACRO@);
    lemma_occurs_trans(data, rb, rust_bindings_text(cfuncs, rfuncs));
}

/// A member of `UERustApi` calls into Rust under its function's own id with
/// as many arguments as the function takes. Where the function returns a
/// value, the member returns the union field of the return type's tag in small
/// letters (`void_val` for `c_void`, `i32_val` for `i32`, `buf_val` for
/// `&str`), the field under which the Rust side returns it; where it returns
/// nothing, the member only makes the call.
pub proof fn lemma_rapi_returns_field_of_its_tag(cfuncs: Seq<FuncModel>, rfuncs: Seq<FuncModel>, k: int)
    requires
        0 <= k < rfuncs.len(),
    ensures
        rfuncs[k].ret.rust_type@ != "()"@ ==> occurs_in(
            "    return subsystem->RInvoke((uint16_t)RMethodId::"@ + rfuncs[k].name + ", args, "@
                + decimal(rfuncs[k].args.len()) + ").value.value."@ + ascii_lower(
                rfuncs[k].ret.tag@,
            ) + "_val;\n"@,
            module_cpp_text(cfuncs, rfuncs),
        ),
        rfuncs[k].ret.rust_type@ == "()"@ ==> occurs_in(
            "    subsystem->RInvoke((uint16_t)RMethodId::"@ + rfuncs[k].name + ", args, "@
                + decimal(rfuncs[k].args.len()) + ");\n"@,
            module_cpp_text(cfuncs, rfuncs),
        ),
{
    let f = rfuncs[k];
    let inv = rapi_invoke(f);
    let pre = f.ret.c_type@ + " UERustApi::"@ + f.name + "("@ + arg_list(ArgStyle::CParam, f.args)
        + ") {\n"@ + rapi_args_array(f.args);
    lemma_occurs_between(pre, inv, "}\n"@);
    assert(rapi_def(f) == pre + inv + "}\n"@);
    lemma_rapi_defs_has(rfuncs, rfuncs.len(), k);
    let defs = rapi_defs(rfuncs, rfuncs.len());
    lemma_occurs_trans(inv, rapi_def(f), defs);
    let before = CPP_HEAD@ + cpp_id_enum("MethodId"@, cfuncs) + cpp_id_enum("RMethodId"@, rfuncs)
        + CPP_STARTUP@ + dispatch_branches(cfuncs, cfuncs.len()) + CPP_AFTER_DISPATCH@;
    lemma_occurs_between(before, defs, CPP_LOG@);
    lemma_occurs_trans(inv, defs, module_cpp_text(cfuncs, rfuncs));
}

// ---------------------------------------------------------------------------
// Calls from Rust into C++
// ---------------------------------------------------------------------------

/// The declaration of the handler for a function that Rust calls, up to its
/// closing parenthesis: `virtual`, the return type (`void` for `()`), the
/// name and the parameters `a0`, `a1`, ...
pub open spec fn handler_head(f: FuncModel) -> Seq<char> {
    "    virtual "@ + (if f.ret.rust_type@ == "()"@ {
        "void"@
    } else {
        f.ret.c_type@
    }) + " "@ + f.name + "("@ + join_seq(numbered_params(c_param_types(f.args, f.args.len())), ", "@)
}

/// The module must implement every function that Rust calls: its handler is
/// pure virtual, whatever it returns; only the logger, which the generated
/// file defines itself, is not.
pub proof fn lemma_handlers_are_pure_but_the_logger(cfuncs: Seq<FuncModel>, rfuncs: Seq<FuncModel>, k: int)
    requires
        0 <= k < cfuncs.len(),
    ensures
        cfuncs[k].name != "uerust_log"@ ==> occurs_in(
            handler_head(cfuncs[k]) + ") = 0;\n"@,
            module_header_text(cfuncs, rfuncs),
        ),
        cfuncs[k].name == "uerust_log"@ ==> occurs_in(
            handler_head(cfuncs[k]) + ");\n"@,
            module_header_text(cfuncs, rfuncs),
        ),
{
    let f = cfuncs[k];
    let d = handler_decl(f);
    if f.name == "uerust_log"@ {
        assert(d == handler_head(f) + ");\n"@);
    } else {
        assert(d == handler_head(f) + ") = 0;\n"@);
    }
    lemma_handler_decls_has(cfuncs, cfuncs.len(), k);
    let decls = handler_decls(cfuncs, cfuncs.len());
    let before = HEADER_HEAD@ + rapi_decls(rfuncs, rfuncs.len()) + HEADER_MIDDLE@;
    lemma_occurs_between(before, decls, "};\n"@);
    lemma_occurs_trans(d, decls, module_header_text(cfuncs, rfuncs));
}

// ---------------------------------------------------------------------------
// Where a piece sits in a whole file
// ---------------------------------------------------------------------------

proof fn lemma_occurs_mid4(x: Seq<char>, a: Seq<char>, b: Seq<char>, c: Seq<char>, d: Seq<char>)
    requires
        occurs_in(x, b),
    ensures
        occurs_in(x, a + b + c + d),
{
    lemma_occurs_before(x, a, b);
    lemma_occurs_after(x, a + b, c);
    lemma_occurs_after(x, a + b + c, d);
}

proof fn lemma_dispatch_branches_has(fs: Seq<FuncModel>, n: nat, k: int)
    requires
        0 <= k < n,
    ensures
        occurs_in(dispatch_branch(fs[k], k as nat, fs.len()), dispatch_branches(fs, n)),
    decreases n,
{
    let piece = dispatch_branch(fs[k], k as nat, fs.len());
    if k == n - 1 {
        lemma_occurs_at_end(dispatch_branches(fs, (n - 1) as nat), piece);
    } else {
        lemma_dispatch_branches_has(fs, (n - 1) as nat, k);
        lemma_occurs_after(
            piece,
            dispatch_branches(fs, (n - 1) as nat),
            dispatch_branch(fs[n - 1], (n - 1) as nat, fs.len()),
        );
    }
}

proof fn lemma_invoke_fns_has(fs: Seq<FuncModel>, n: nat, k: int)
    requires
        0 <= k < n,
    ensures
        occurs_in(invoke_fn(fs[k]), invoke_fns(fs, n)),
    decreases n,
{
    if k == n - 1 {
        lemma_occurs_at_end(invoke_fns(fs, (n - 1) as nat), invoke_fn(fs[k]));
    } else {
        lemma_invoke_fns_has(fs, (n - 1) as nat, k);
        lemma_occurs_after(invoke_fn(fs[k]), invoke_fns(fs, (n - 1) as nat), invoke_fn(fs[n - 1]));
    }
}

proof fn lemma_cpp_arg_reads_has(args: Seq<(Seq<char>, TypeSpec)>, n: nat, i: int)
    requires
        0 <= i < n,
    ensures
        occurs_in(cpp_arg_read(args[i], i as nat), cpp_arg_reads(args, n)),
    decreases n,
{
    if i == n - 1 {
        lemma_occurs_at_end(cpp_arg_reads(args, (n - 1) as nat), cpp_arg_read(args[i], i as nat));
    } else {
        lemma_cpp_arg_reads_has(args, (n - 1) as nat, i);
        lemma_occurs_after(
            cpp_arg_read(args[i], i as nat),
            cpp_arg_reads(args, (n - 1) as nat),
            cpp_arg_read(args[n - 1], (n - 1) as nat),
        );
    }
}

proof fn lemma_arg_values_has(args: Seq<(Seq<char>, TypeSpec)>, n: nat, i: int)
    requires
        0 <= i < n,
    ensures
        occurs_in(arg_value(args[i]), arg_values(args, n)),
    decreases n,
{
    if i == n - 1 {
        lemma_occurs_at_end(arg_values(args, (n - 1) as nat), arg_value(args[i]));
    } else {
        lemma_arg_values_has(args, (n - 1) as nat, i);
        lemma_occurs_after(arg_value(args[i]), arg_values(args, (n - 1) as nat), arg_value(args[n - 1]));
    }
}

proof fn lemma_rapi_arg_elems_has(args: Seq<(Seq<char>, TypeSpec)>, n: nat, i: int)
    requires
        0 <= i < n,
    ensures
        occurs_in(rapi_arg_elem(args[i]), rapi_arg_elems(args, n)),
    decreases n,
{
    if i == n - 1 {
        lemma_occurs_at_end(rapi_arg_elems(args, (n - 1) as nat), rapi_arg_elem(args[i]));
    } else {
        lemma_rapi_arg_elems_has(args, (n - 1) as nat, i);
        lemma_occurs_after(rapi_arg_elem(args[i]), rapi_arg_elems(args, (n - 1) as nat), rapi_arg_elem(args[n - 1]));
    }
}

/// What occurs in the `rinvoke` branch of a function occurs in `bindings.rs`.
proof fn lemma_in_rinvoke(cfuncs: Seq<FuncModel>, rfuncs: Seq<FuncModel>, k: int, x: Seq<char>)
    requires
        0 <= k < rfuncs.len(),
        occurs_in(x, rinvoke_branch(rfuncs[k], k as nat, rfuncs.len())),
    ensures
        occurs_in(x, rust_bindings_text(cfuncs, rfuncs)),
{
    lemma_rinvoke_branches_has(rfuncs, rfuncs.len(), k);
    let rb = rinvoke_branches(rfuncs, rfuncs.len());
    lemma_occurs_trans(x, rinvoke_branch(rfuncs[k], k as nat, rfuncs.len()), rb);
    let e1 = rust_id_enum("MethodId"@, cfuncs);
    let e2 = rust_id_enum("RMethodId"@, rfuncs);
    let inv = invoke_fns(cfuncs, cfuncs.len());
    lemma_occurs_before(x, RUST_HEAD@, rb);
    lemma_occurs_after(x, RUST_HEAD@ + rb, RUST_RUNTIME@);
    lemma_occurs_after(x, RUST_HEAD@ + rb + RUST_RUNTIME@, e1);
    lemma_occurs_after(x, RUST_HEAD@ + rb + RUST_RUNTIME@ + e1, e2);
    lemma_occurs_after(x, RUST_HEAD@ + rb + RUST_RUNTIME@ + e1 + e2, inv);
    lemma_occurs_after(x, RUST_HEAD@ + rb + RUST_RUNTIME@ + e1 + e2 + inv, RUST_FFI_MACRO@);
}

/// What occurs in the `invoke_*` function of a function occurs in
/// `bindings.rs`.
proof fn lemma_in_invoke(cfuncs: Seq<FuncModel>, rfuncs: Seq<FuncModel>, k: int, x: Seq<char>)
    requires
        0 <= k < cfuncs.len(),
        occurs_in(x, invoke_fn(cfuncs[k])),
    ensures
        occurs_in(x, rust_bindings_text(cfuncs, rfuncs)),
{
    lemma_invoke_fns_has(cfuncs, cfuncs.len(), k);
    let inv = invoke_fns(cfuncs, cfuncs.len());
    lemma_occurs_trans(x, invoke_fn(cfuncs[k]), inv);
    let pre = RUST_HEAD@ + rinvoke_branches(rfuncs, rfuncs.len()) + RUST_RUNTIME@ + rust_id_enum(
        "MethodId"@,
        cfuncs,
    ) + rust_id_enum("RMethodId"@, rfuncs);
    lemma_occurs_between(pre, inv, RUST_FFI_MACRO@);
    lemma_occurs_trans(x, inv, rust_bindings_text(cfuncs, rfuncs));
}

/// What occurs in the dispatch branch of a function occurs in the `.cpp`.
proof fn lemma_in_dispatch(cfuncs: Seq<FuncModel>, rfuncs: Seq<FuncModel>, k: int, x: Seq<char>)
    requires
        0 <= k < cfuncs.len(),
        occurs_in(x, dispatch_branch(cfuncs[k], k as nat, cfuncs.len())),
    ensures
        occurs_in(x, module_cpp_text(cfuncs, rfuncs)),
{
    lemma_dispatch_branches_has(cfuncs, cfuncs.len(), k);
    let db = dispatch_branches(cfuncs, cfuncs.len());
    lemma_occurs_trans(x, dispatch_branch(cfuncs[k], k as nat, cfuncs.len()), db);
    let pre = CPP_HEAD@ + cpp_id_enum("MethodId"@, cfuncs) + cpp_id_enum("RMethodId"@, rfuncs)
        + CPP_STARTUP@;
    lemma_occurs_before(x, pre, db);
    lemma_occurs_after(x, pre + db, CPP_AFTER_DISPATCH@);
    lemma_occurs_after(x, pre + db + CPP_AFTER_DISPATCH@, rapi_defs(rfuncs, rfuncs.len()));
    lemma_occurs_after(
        x,
        pre + db + CPP_AFTER_DISPATCH@ + rapi_defs(rfuncs, rfuncs.len()),
        CPP_LOG@,
    );
}

/// What occurs in the `UERustApi` member of a function occurs in the `.cpp`.
proof fn lemma_in_rapi_def(cfuncs: Seq<FuncModel>, rfuncs: Seq<FuncModel>, k: int, x: Seq<char>)
    requires
        0 <= k < rfuncs.len(),
        occurs_in(x, rapi_def(rfuncs[k])),
    ensures
        occurs_in(x, module_cpp_text(cfuncs, rfuncs)),
{
    lemma_rapi_defs_has(rfuncs, rfuncs.len(), k);
    let defs = rapi_defs(rfuncs, rfuncs.len());
    lemma_occurs_trans(x, rapi_def(rfuncs[k]), defs);
    let before = CPP_HEAD@ + cpp_id_enum("MethodId"@, cfuncs) + cpp_id_enum("RMethodId"@, rfuncs)
        + CPP_STARTUP@ + dispatch_branches(cfuncs, cfuncs.len()) + CPP_AFTER_DISPATCH@;
    lemma_occurs_between(before, defs, CPP_LOG@);
    lemma_occurs_trans(x, defs, module_cpp_text(cfuncs, rfuncs));
}

// ---------------------------------------------------------------------------
// Both sides agree on each argument and each result
// ---------------------------------------------------------------------------

/// `rinvoke` reads every argument that travels by value under its own tag,
/// from the union field of that tag in small letters, into a variable of the
/// argument's name; a buffer's length is read as a `usize`.
pub proof fn lemma_rinvoke_reads_values_under_their_tag(
    cfuncs: Seq<FuncModel>,
    rfuncs: Seq<FuncModel>,
    k: int,
    i: int,
)
    requires
        0 <= k < rfuncs.len(),
        0 <= i < rfuncs[k].args.len(),
    ensures
        !rfuncs[k].args[i].1.is_buf_like ==> occurs_in(
            "        let Some("@ + rfuncs[k].args[i].0 + ") = args.get("@ + decimal(i as nat)
                + ").map(|v| { assert_eq!(v.tag, ArgTag::"@ + rfuncs[k].args[i].1.tag@
                + "); unsafe { v.value."@ + ascii_lower(rfuncs[k].args[i].1.tag@)
                + "_val } }) else { return Return::none() };\n"@,
            rust_bindings_text(cfuncs, rfuncs),
        ),
        rfuncs[k].args[i].1.is_buf_like ==> occurs_in(
            "        let Some("@ + (rfuncs[k].args[i].0 + "_len"@) + ") = args.get("@ + decimal(
                i as nat,
            ) + ").map(|v| { assert_eq!(v.tag, ArgTag::"@ + "USize"@
                + "); unsafe { v.value."@ + ascii_lower("USize"@)
                + "_val } }) else { return Return::none() };\n"@,
            rust_bindings_text(cfuncs, rfuncs),
        ),
{
    crate::types::lemma_builtin_type_names();
    let f = rfuncs[k];
    let a = f.args[i];
    let lines = arg_read_lines(a, i as nat);
    let x = if a.1.is_buf_like {
        arg_read_line(a.0 + "_len"@, i as nat, "USize"@)
    } else {
        arg_read_line(a.0, i as nat, a.1.tag@)
    };
    if a.1.is_buf_like {
        lemma_occurs_at_end(arg_read_line(a.0 + "_data"@, i as nat, a.1.tag@), x);
    } else {
        lemma_occurs_self(x);
    }
    lemma_arg_reads_has(f.args, f.args.len(), i);
    lemma_occurs_trans(x, lines, arg_reads(f.args, f.args.len()));
    lemma_occurs_mid4(x, branch_head(f, k as nat), arg_reads(f.args, f.args.len()), macro_comment(f), rinvoke_call(f));
    lemma_occurs_after(x, branch_head(f, k as nat) + arg_reads(f.args, f.args.len()) + macro_comment(f) + rinvoke_call(f), branch_close(k as nat, rfuncs.len()));
    lemma_in_rinvoke(cfuncs, rfuncs, k, x);
}

/// Where a function that C++ calls returns a value, `rinvoke` returns it under
/// the return type's tag, in the union field of that tag in small letters: the
/// field that the `UERustApi` member reads.
pub proof fn lemma_rinvoke_returns_under_its_tag(cfuncs: Seq<FuncModel>, rfuncs: Seq<FuncModel>, k: int)
    requires
        0 <= k < rfuncs.len(),
        rfuncs[k].ret.rust_type@ != "()"@,
    ensures
        occurs_in(
            "        return Return::some(Argument { tag: ArgTag::"@ + rfuncs[k].ret.tag@
                + ", value: ArgType { "@ + ascii_lower(rfuncs[k].ret.tag@) + "_val: crate::"@
                + rfuncs[k].name + "("@,
            rust_bindings_text(cfuncs, rfuncs),
        ),
{
    let f = rfuncs[k];
    let x = "        return Return::some(Argument { tag: ArgTag::"@ + f.ret.tag@ + ", value: ArgType { "@
        + ascii_lower(f.ret.tag@) + "_val: crate::"@ + f.name + "("@;
    let rest = arg_list(ArgStyle::CallArg, f.args) + ") } });\n"@;
    lemma_occurs_between(Seq::<char>::empty(), x, rest);
    assert(Seq::<char>::empty() + x + rest =~= rinvoke_call(f));
    let front = branch_head(f, k as nat) + arg_reads(f.args, f.args.len()) + macro_comment(f);
    lemma_occurs_before(x, front, rinvoke_call(f));
    lemma_occurs_after(x, front + rinvoke_call(f), branch_close(k as nat, rfuncs.len()));
    lemma_in_rinvoke(cfuncs, rfuncs, k, x);
}

/// A `UERustApi` member sends each argument under its own tag, in the union
/// field of that tag in small letters: the tag and the field that `rinvoke`
/// checks and reads. A single argument is written on the array's one line.
pub proof fn lemma_rapi_sends_under_their_tag(cfuncs: Seq<FuncModel>, rfuncs: Seq<FuncModel>, k: int, i: int)
    requires
        0 <= k < rfuncs.len(),
        0 <= i < rfuncs[k].args.len(),
    ensures
        rfuncs[k].args.len() >= 2 ==> occurs_in(
            "        Argument { .tag = ArgTag::"@ + rfuncs[k].args[i].1.tag@ + ", .value = ArgType { ."@
                + ascii_lower(rfuncs[k].args[i].1.tag@) + "_val = "@ + rfuncs[k].args[i].0
                + " } },\n"@,
            module_cpp_text(cfuncs, rfuncs),
        ),
        rfuncs[k].args.len() == 1 ==> occurs_in(
            "    Argument args[] = { Argument { .tag = ArgTag::"@ + rfuncs[k].args[i].1.tag@
                + ", .value = ArgType { ."@ + ascii_lower(rfuncs[k].args[i].1.tag@) + "_val = "@
                + rfuncs[k].args[i].0 + " } }, };\n"@,
            module_cpp_text(cfuncs, rfuncs),
        ),
{
    let f = rfuncs[k];
    let arr = rapi_args_array(f.args);
    let pre = f.ret.c_type@ + " UERustApi::"@ + f.name + "("@ + arg_list(ArgStyle::CParam, f.args) + ") {\n"@;
    lemma_occurs_self(arr);
    lemma_occurs_mid4(arr, pre, arr, rapi_invoke(f), "}\n"@);
    if f.args.len() >= 2 {
        let x = rapi_arg_elem(f.args[i]);
        lemma_rapi_arg_elems_has(f.args, f.args.len(), i);
        let elems = rapi_arg_elems(f.args, f.args.len());
        lemma_occurs_between("    Argument args[] = {\n"@, elems, "    };\n"@);
        lemma_occurs_trans(x, elems, arr);
        lemma_occurs_trans(x, arr, rapi_def(f));
        lemma_in_rapi_def(cfuncs, rfuncs, k, x);
    } else {
        lemma_in_rapi_def(cfuncs, rfuncs, k, arr);
    }
}

/// Where Rust calls a function in C++, each argument that travels by value
/// is sent under its own tag in the field `<Rust type>_val`, and the C++
/// dispatch reads it from that same field into a constant of its C type and
/// name; a buffer is sent as `Buf` and its data read from `buf_val.ptr`.
pub proof fn lemma_rust_to_cpp_arguments_agree(cfuncs: Seq<FuncModel>, rfuncs: Seq<FuncModel>, k: int, i: int)
    requires
        0 <= k < cfuncs.len(),
        0 <= i < cfuncs[k].args.len(),
    ensures
        !cfuncs[k].args[i].1.is_buf_like ==> occurs_in(
            "        Argument { tag: ArgTag::"@ + cfuncs[k].args[i].1.tag@ + ", value: ArgType { "@
                + cfuncs[k].args[i].1.rust_type@ + "_val: "@ + cfuncs[k].args[i].0 + " } },\n"@,
            rust_bindings_text(cfuncs, rfuncs),
        ),
        !cfuncs[k].args[i].1.is_buf_like ==> occurs_in(
            "                            "@ + cfuncs[k].args[i].1.c_type@ + " const& "@
                + cfuncs[k].args[i].0 + " = args["@ + decimal(i as nat) + "].value."@
                + cfuncs[k].args[i].1.rust_type@ + "_val;\n"@,
            module_cpp_text(cfuncs, rfuncs),
        ),
        cfuncs[k].args[i].1.is_buf_like ==> occurs_in(
            "        Argument { tag: ArgTag::Buf, value: ArgType { buf_val: ManuallyDrop::new(Buffer { ptr: "@
                + cfuncs[k].args[i].0 + ".as_ptr(), len: "@ + cfuncs[k].args[i].0
                + ".len() }) } },\n"@,
            rust_bindings_text(cfuncs, rfuncs),
        ),
        cfuncs[k].args[i].1.is_buf_like ==> occurs_in(
            "                            "@ + cfuncs[k].args[i].1.c_type@ + " "@ + cfuncs[k].args[i].0
                + "_data = args["@ + decimal(i as nat) + "].value.buf_val.ptr;\n"@,
            module_cpp_text(cfuncs, rfuncs),
        ),
{
    let f = cfuncs[k];
    let a = f.args[i];
    // The Rust side.
    let v = arg_value(a);
    lemma_arg_values_has(f.args, f.args.len(), i);
    let vals = arg_values(f.args, f.args.len());
    let pre = "/// "@ + f.name + " — "@ + f.doc + "\n"@ + "#[inline]\npub fn invoke_"@ + f.name + "("@
        + arg_list(ArgStyle::RustParam, f.args) + ") -> Return {\n"@ + "    let args = [\n"@;
    let post = "    ];\n"@ + "    (GetUERustCApi().invoke)(MethodId::"@ + f.name
        + " as u16, (&args).as_ptr(), args.len())\n"@ + "}\n"@;
    lemma_occurs_between(pre, vals, post);
    assert(pre + vals + post =~= invoke_fn(f));
    lemma_occurs_trans(v, vals, invoke_fn(f));
    lemma_in_invoke(cfuncs, rfuncs, k, v);
    // The C++ side.
    let read = cpp_arg_read(a, i as nat);
    let x = if a.1.is_buf_like {
        "                            "@ + a.1.c_type@ + " "@ + a.0 + "_data = args["@ + decimal(i as nat)
            + "].value.buf_val.ptr;\n"@
    } else {
        read
    };
    if a.1.is_buf_like {
        let rest = "                            "@ + crate::types::usize_type().c_type@ + " "@ + a.0
            + "_len = args["@ + decimal(i as nat) + "].value.buf_val.len;\n"@;
        lemma_occurs_between(Seq::<char>::empty(), x, rest);
        assert(Seq::<char>::empty() + x + rest =~= read);
    } else {
        lemma_occurs_self(read);
    }
    lemma_cpp_arg_reads_has(f.args, f.args.len(), i);
    let reads = cpp_arg_reads(f.args, f.args.len());
    lemma_occurs_trans(x, read, reads);
    lemma_occurs_mid4(x, dispatch_head(f, k as nat), reads, dispatch_call(f), dispatch_close(k as nat, cfuncs.len()));
    lemma_in_dispatch(cfuncs, rfuncs, k, x);
}

/// Where Rust calls a function in C++, the dispatch answers with what the
/// handler returns: tagged with the return type's own tag and put in the
/// field `<Rust type>_val`, or, for a function that returns nothing, by
/// calling the handler and answering with an empty `Return`.
pub proof fn lemma_dispatch_answers_under_its_tag(cfuncs: Seq<FuncModel>, rfuncs: Seq<FuncModel>, k: int)
    requires
        0 <= k < cfuncs.len(),
    ensures
        cfuncs[k].ret.rust_type@ != "()"@ ==> occurs_in(
            "                            return Return { .is_some = true, .value = Argument { .tag = ArgTag::"@
                + cfuncs[k].ret.tag@ + ", .value = ArgType { ."@ + cfuncs[k].ret.rust_type@
                + "_val = uerust_"@ + cfuncs[k].name + "("@ + arg_list(
                ArgStyle::CallArg,
                cfuncs[k].args,
            ) + ") } } };\n"@,
            module_cpp_text(cfuncs, rfuncs),
        ),
        cfuncs[k].ret.rust_type@ == "()"@ ==> occurs_in(
            "                            "@ + cfuncs[k].name + "("@ + arg_list(
                ArgStyle::CallArg,
                cfuncs[k].args,
            ) + ");\n"@ + "                            return Return { .is_some = false };\n"@,
            module_cpp_text(cfuncs, rfuncs),
        ),
{
    let f = cfuncs[k];
    let call = dispatch_call(f);
    let pre = dispatch_head(f, k as nat) + cpp_arg_reads(f.args, f.args.len());
    lemma_occurs_self(call);
    lemma_occurs_before(call, pre, call);
    lemma_occurs_after(call, pre + call, dispatch_close(k as nat, cfuncs.len()));
    lemma_in_dispatch(cfuncs, rfuncs, k, call);
}

}

//! The `gen` command: from an API description to the text of every file it
//! writes.
use vstd::prelude::*;

use crate::api::{ApiSchema, FuncModel, entries_view, models, process_api_schema, resolve_api};
use crate::cpp_gen::{module_cpp, module_cpp_text, module_header, module_header_text};
use crate::rust_gen::{rust_bindings, rust_bindings_text};
use crate::templates::{CARGO_TOML_HEAD, CARGO_TOML_TAIL, DEFAULT_API_JSON, LIB_RS};
use crate::text::{append_str, decimal, decimal_string};

verus! {

/// The `api.json` that a new project starts with: no functions either way.
pub fn default_api_json() -> (r: String)
    ensures
        r@ == DEFAULT_API_JSON@,
{
    DEFAULT_API_JSON.to_owned()
}

/// The `Cargo.toml` of a new project: a `cdylib` package named after it.
pub open spec fn cargo_toml_text(project_name: Seq<char>) -> Seq<char> {
    CARGO_TOML_HEAD@ + project_name + CARGO_TOML_TAIL@
}

/// Writes the `Cargo.toml` of a new project called `project_name`.
pub fn default_cargo_toml(project_name: &str) -> (r: String)
    ensures
        r@ == cargo_toml_text(project_name@),
{
    let mut s = String::new();
    append_str(&mut s, CARGO_TOML_HEAD);
    append_str(&mut s, project_name);
    append_str(&mut s, CARGO_TOML_TAIL);
    assert(s@ =~= cargo_toml_text(project_name@));
    s
}

/// The `src/lib.rs` of a new project: a load hook that starts the logger.
pub fn default_lib_rs() -> (r: String)
    ensures
        r@ == LIB_RS@,
{
    LIB_RS.to_owned()
}

/// The line that reports the number of functions that Rust can call.
pub open spec fn summary_text(n: nat) -> Seq<char> {
    "✅ Successfully generated bindings for "@ + decimal(n) + " functions"@
}

/// Writes the line that reports `n` functions.
pub fn summary_line(n: usize) -> (r: String)
    ensures
        r@ == summary_text(n as nat),
{
    let mut s = String::new();
    append_str(&mut s, "✅ Successfully generated bindings for ");
    let num = decimal_string(n);
    append_str(&mut s, num.as_str());
    append_str(&mut s, " functions");
    assert(s@ =~= summary_text(n as nat));
    s
}

/// The text of the files that `gen` writes.
pub struct GeneratedFiles {
    /// `bindings.rs`.
    pub bindings_rs: String,
    /// `Public/UERustModuleImpl.h`, where the project has a module of its own.
    pub module_header: Option<String>,
    /// `Private/UERustModuleImpl.cpp`, where the project has a module of its
    /// own.
    pub module_cpp: Option<String>,
    /// The line that reports the result.
    pub summary: String,
}

/// Whether `g` holds the files for the function lists `c` and `r`; the C++
/// files are there exactly when `with_module`.
pub open spec fn files_for(g: GeneratedFiles, c: Seq<FuncModel>, r: Seq<FuncModel>, with_module: bool) -> bool {
    &&& g.bindings_rs@ == rust_bindings_text(c, r)
    &&& match g.module_header {
        Some(h) => with_module && h@ == module_header_text(c, r),
        None => !with_module,
    }
    &&& match g.module_cpp {
        Some(p) => with_module && p@ == module_cpp_text(c, r),
        None => !with_module,
    }
    &&& g.summary@ == summary_text(c.len())
}

/// Resolves the description and writes the text of every file of `gen`: the
/// Rust bindings, and the C++ module where `with_module`; fails with the
/// message of the first type name that is not supported.
pub fn generate_files(schema: &ApiSchema, with_module: bool) -> (r: Result<GeneratedFiles, String>)
    ensures
        match r {
            Ok(g) => {
                let want = resolve_api(entries_view(schema.cfunc@), entries_view(schema.rfunc@));
                &&& want is Ok
                &&& files_for(g, want->Ok_0.0, want->Ok_0.1, with_module)
            },
            Err(e) => resolve_api(entries_view(schema.cfunc@), entries_view(schema.rfunc@))
                == Err::<(Seq<FuncModel>, Seq<FuncModel>), Seq<char>>(e@),
        },
{
    let (cfuncs, rfuncs) = process_api_schema(schema)?;
    let bindings_rs = rust_bindings(&cfuncs, &rfuncs);
    let (module_header, module_cpp) = if with_module {
        (Some(module_header(&cfuncs, &rfuncs)), Some(module_cpp(&cfuncs, &rfuncs)))
    } else {
        (None, None)
    };
    let summary = summary_line(cfuncs.len());
    assert(models(cfuncs@).len() == cfuncs@.len());
    Ok(GeneratedFiles { bindings_rs, module_header, module_cpp, summary })
}

}

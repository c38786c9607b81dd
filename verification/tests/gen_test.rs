use uer::cpp_gen::{module_cpp, module_header};
use uer::generate::{default_api_json, default_cargo_toml, default_lib_rs, summary_line};
use uer::rust_gen::rust_bindings;
use uer::templates::{CPP_HEAD, CPP_LOG, HEADER_HEAD, RUST_FFI_MACRO, RUST_HEAD, RUST_RUNTIME};
use uer::{generate_files, process_api_schema, ApiSchema, Arg, FuncEntry, FuncSpec};

fn arg(name: &str, ty: &str) -> Arg {
    Arg { inner: vec![(name.to_string(), ty.to_string())] }
}

fn entry(doc: &str, ret: Option<&str>, args: Vec<Arg>) -> FuncEntry {
    FuncEntry { doc: doc.to_string(), ret: ret.map(|r| r.to_string()), args }
}

fn readme_schema() -> ApiSchema {
    ApiSchema {
        cfunc: vec![("add".to_string(), entry("Add two integers", Some("i32"), vec![arg("a", "i32"), arg("b", "i32")]))],
        rfunc: vec![("get_version".to_string(), entry("Get plugin version string", Some("&str"), vec![]))],
    }
}

fn readme_lists() -> (Vec<FuncSpec>, Vec<FuncSpec>) {
    process_api_schema(&readme_schema()).unwrap()
}

#[test]
fn rinvoke_dispatches_each_rust_function() {
    let (c, r) = readme_lists();
    let text = rust_bindings(&c, &r);
    let expected = String::new()
        + RUST_HEAD
        + "    if rmethod_id == RMethodId::get_version as u16 {\n"
        + "        // uerust_ffi!(fn get_version() -> &str { unimplemented!() });\n"
        + "        return Return::some(Argument { tag: ArgTag::Buf, value: ArgType { buf_val: crate::get_version() } });\n"
        + "    } else if rmethod_id == RMethodId::uerust_loaded as u16 {\n"
        + "        let Some(a0) = args.get(0).map(|v| { assert_eq!(v.tag, ArgTag::Bool); unsafe { v.value.bool_val } }) else { return Return::none() };\n"
        + "        // uerust_ffi!(fn uerust_loaded(a0: bool) { unimplemented!() });\n"
        + "        crate::uerust_loaded(a0);\n"
        + "        return Return::none();\n"
        + "    }\n"
        + RUST_RUNTIME;
    assert!(text.starts_with(&expected), "{text}");
    assert!(text.ends_with(RUST_FFI_MACRO));
}

#[test]
fn buffers_are_read_as_data_and_length() {
    let schema = ApiSchema {
        cfunc: vec![],
        rfunc: vec![("say".to_string(), entry("", Some("u64"), vec![arg("msg", "String"), arg("n", "f32")]))],
    };
    let (c, r) = process_api_schema(&schema).unwrap();
    let text = rust_bindings(&c, &r);
    let expected = String::new()
        + "    if rmethod_id == RMethodId::say as u16 {\n"
        + "        let Some(msg_data) = args.get(0).map(|v| { assert_eq!(v.tag, ArgTag::String); unsafe { v.value.string_val } }) else { return Return::none() };\n"
        + "        let Some(msg_len) = args.get(0).map(|v| { assert_eq!(v.tag, ArgTag::USize); unsafe { v.value.usize_val } }) else { return Return::none() };\n"
        + "        let Some(n) = args.get(1).map(|v| { assert_eq!(v.tag, ArgTag::F32); unsafe { v.value.f32_val } }) else { return Return::none() };\n"
        + "        // uerust_ffi!(fn say(msg_data: String, msg_len: usize, n: f32) -> u64 { unimplemented!() });\n"
        + "        return Return::some(Argument { tag: ArgTag::U64, value: ArgType { u64_val: crate::say(msg_data, msg_len, n) } });\n"
        + "    } else if";
    assert!(text.contains(&expected), "{text}");
}

#[test]
fn method_ids_are_numbered_alike_on_both_sides() {
    let (c, r) = readme_lists();
    let rust = rust_bindings(&c, &r);
    let cpp = module_cpp(&c, &r);
    let lines = "    add = 1,\n    uerust_log = 2,\n";
    assert!(rust.contains(&format!("#[allow(non_camel_case_types)]\n#[repr(C)]\nenum MethodId {{\n{lines}}}\n\n")));
    assert!(cpp.contains(&format!("enum class MethodId {{\n{lines}}};\n\n")));
    let rlines = "    get_version = 1,\n    uerust_loaded = 2,\n";
    assert!(rust.contains(&format!("enum RMethodId {{\n{rlines}}}\n\n")));
    assert!(cpp.contains(&format!("enum class RMethodId {{\n{rlines}}};\n\n")));
}

#[test]
fn invoke_functions_pack_their_arguments() {
    let (c, r) = readme_lists();
    let text = rust_bindings(&c, &r);
    let add = String::new()
        + "/// add — Add two integers\n"
        + "#[inline]\npub fn invoke_add(a: i32, b: i32) -> Return {\n"
        + "    let args = [\n"
        + "        Argument { tag: ArgTag::I32, value: ArgType { i32_val: a } },\n"
        + "        Argument { tag: ArgTag::I32, value: ArgType { i32_val: b } },\n"
        + "    ];\n"
        + "    (GetUERustCApi().invoke)(MethodId::add as u16, (&args).as_ptr(), args.len())\n"
        + "}\n";
    let log = String::new()
        + "/// uerust_log — \n"
        + "#[inline]\npub fn invoke_uerust_log(a0: &str, a1: u8) -> Return {\n"
        + "    let args = [\n"
        + "        Argument { tag: ArgTag::Buf, value: ArgType { buf_val: ManuallyDrop::new(Buffer { ptr: a0.as_ptr(), len: a0.len() }) } },\n"
        + "        Argument { tag: ArgTag::U8, value: ArgType { u8_val: a1 } },\n"
        + "    ];\n"
        + "    (GetUERustCApi().invoke)(MethodId::uerust_log as u16, (&args).as_ptr(), args.len())\n"
        + "}\n";
    assert!(text.contains(&(add + &log + RUST_FFI_MACRO)), "{text}");
}

#[test]
fn header_declares_both_directions() {
    let (c, r) = readme_lists();
    let h = module_header(&c, &r);
    let members = "    uint8_t const* get_version();\n    void uerust_loaded(bool a0);\n";
    assert!(h.starts_with(&(HEADER_HEAD.to_string() + members)), "{h}");
    let handlers = "protected:\n    virtual int32_t add(int32_t a0, int32_t a1) = 0;\n    virtual void uerust_log(uint8_t const* a0, uintptr_t a1, uint8_t a2);\n};\n";
    assert!(h.ends_with(handlers), "{h}");
}

#[test]
fn cpp_dispatches_calls_from_rust() {
    let (c, r) = readme_lists();
    let cpp = module_cpp(&c, &r);
    assert!(cpp.starts_with(CPP_HEAD));
    assert!(cpp.ends_with(CPP_LOG));
    let dispatch = String::new()
        + "                    subsystem.OnInvoke = [this](uint16_t method_id, Argument const* args, size_t num_args) {\n"
        + "                        if ((MethodId)method_id == MethodId::add) {\n"
        + "                            int32_t const& a = args[0].value.i32_val;\n"
        + "                            int32_t const& b = args[1].value.i32_val;\n"
        + "                            return Return { .is_some = true, .value = Argument { .tag = ArgTag::I32, .value = ArgType { .i32_val = uerust_add(a, b) } } };\n"
        + "                        } else if ((MethodId)method_id == MethodId::uerust_log) {\n"
        + "                            uint8_t const* a0_data = args[0].value.buf_val.ptr;\n"
        + "                            uintptr_t a0_len = args[0].value.buf_val.len;\n"
        + "                            uint8_t const& a1 = args[1].value.u8_val;\n"
        + "                            uerust_log(a0_data, a0_len, a1);\n"
        + "                            return Return { .is_some = false };\n"
        + "                        }\n"
        + "                        return Return { .is_some = false };\n";
    assert!(cpp.contains(&dispatch), "{cpp}");
}

#[test]
fn cpp_wraps_calls_into_rust() {
    let (c, r) = readme_lists();
    let cpp = module_cpp(&c, &r);
    let defs = String::new()
        + "UERustApi::UERustApi(UUERustPluginEngineSubsystem& s) : subsystem(&s) {}\n\n"
        + "uint8_t const* UERustApi::get_version() {\n"
        + "    Argument args[] = {};\n"
        + "    return subsystem->RInvoke((uint16_t)RMethodId::get_version, args, 0).value.value.buf_val;\n"
        + "}\n"
        + "void UERustApi::uerust_loaded(bool a0) {\n"
        + "    Argument args[] = { Argument { .tag = ArgTag::Bool, .value = ArgType { .bool_val = a0 } }, };\n"
        + "    subsystem->RInvoke((uint16_t)RMethodId::uerust_loaded, args, 1);\n"
        + "}\n"
        + CPP_LOG;
    assert!(cpp.ends_with(&defs), "{cpp}");
}

#[test]
fn cpp_lists_several_arguments_one_per_line() {
    let schema = ApiSchema {
        cfunc: vec![],
        rfunc: vec![("mix".to_string(), entry("", None, vec![arg("x", "i16"), arg("y", "*mut c_void")]))],
    };
    let (c, r) = process_api_schema(&schema).unwrap();
    let cpp = module_cpp(&c, &r);
    let def = String::new()
        + "void UERustApi::mix(int16_t x, void* y) {\n"
        + "    Argument args[] = {\n"
        + "        Argument { .tag = ArgTag::I16, .value = ArgType { .i16_val = x } },\n"
        + "        Argument { .tag = ArgTag::Ptr, .value = ArgType { .ptr_val = y } },\n"
        + "    };\n"
        + "    subsystem->RInvoke((uint16_t)RMethodId::mix, args, 2);\n"
        + "}\n";
    assert!(cpp.contains(&def), "{cpp}");
}

#[test]
fn generate_files_gives_every_text() {
    let g = generate_files(&readme_schema(), true).unwrap();
    let (c, r) = readme_lists();
    assert_eq!(g.bindings_rs, rust_bindings(&c, &r));
    assert_eq!(g.module_header.unwrap(), module_header(&c, &r));
    assert_eq!(g.module_cpp.unwrap(), module_cpp(&c, &r));
    assert_eq!(g.summary, "✅ Successfully generated bindings for 2 functions");
    let g = generate_files(&readme_schema(), false).unwrap();
    assert!(g.module_header.is_none() && g.module_cpp.is_none());
    let bad = ApiSchema { cfunc: vec![], rfunc: vec![("g".to_string(), entry("", Some("u128"), vec![]))] };
    assert!(generate_files(&bad, true).is_err());
}

#[test]
fn new_project_files() {
    assert!(default_api_json().contains("\"cfunc\": {},\n    \"rfunc\": {}\n}"));
    assert_eq!(
        default_cargo_toml("MyGame"),
        "[package]\nname = \"MyGame\"\nversion = \"0.1.0\"\nedition = \"2021\"\n\n[lib]\ncrate-type = [\"cdylib\"]\n\n[dependencies]\n"
    );
    assert!(default_lib_rs().starts_with("fn uerust_loaded(is_reload: bool) {\n    logger::init();\n"));
    assert_eq!(summary_line(12), "✅ Successfully generated bindings for 12 functions");
}

use uer::{process_api_schema, ApiSchema, Arg, FuncEntry, FuncSpec};

fn arg(name: &str, ty: &str) -> Arg {
    Arg { inner: vec![(name.to_string(), ty.to_string())] }
}

fn entry(doc: &str, ret: Option<&str>, args: Vec<Arg>) -> FuncEntry {
    FuncEntry { doc: doc.to_string(), ret: ret.map(|r| r.to_string()), args }
}

fn readme_schema() -> ApiSchema {
    ApiSchema {
        cfunc: vec![("add".to_string(), entry("Add two integers", Some("i32"), vec![arg("a", "i32"), arg("b", "i32")]))],
        rfunc: vec![("get_version".to_string(), entry("Get plugin version string", Some("&str"), vec![]))],
    }
}

fn names(fs: &[FuncSpec]) -> Vec<&str> {
    fs.iter().map(|f| f.name.as_str()).collect()
}

#[test]
fn readme_example_resolves() {
    let (c, r) = process_api_schema(&readme_schema()).unwrap();
    assert_eq!(names(&c), vec!["add", "uerust_log"]);
    assert_eq!(names(&r), vec!["get_version", "uerust_loaded"]);
    let add = &c[0];
    assert_eq!(add.doc, "Add two integers");
    assert_eq!(add.ret.tag, "I32");
    assert_eq!(add.args.len(), 2);
    assert_eq!(add.args[0].0, "a");
    assert_eq!(add.args[1].0, "b");
    assert_eq!(add.args[1].1.tag, "I32");
    assert_eq!(r[0].ret.tag, "Buf");
    assert!(r[0].args.is_empty());
}

#[test]
fn fixed_functions_are_added() {
    let empty = ApiSchema { cfunc: vec![], rfunc: vec![] };
    let (c, r) = process_api_schema(&empty).unwrap();
    assert_eq!(names(&c), vec!["uerust_log"]);
    let log = &c[0];
    assert_eq!(log.args.len(), 2);
    assert_eq!((log.args[0].0.as_str(), log.args[0].1.tag), ("a0", "Buf"));
    assert_eq!((log.args[1].0.as_str(), log.args[1].1.tag), ("a1", "U8"));
    assert_eq!(log.ret.tag, "Unit");
    assert_eq!(log.doc, "");
    assert_eq!(names(&r), vec!["uerust_loaded"]);
    let loaded = &r[0];
    assert_eq!(loaded.args.len(), 1);
    assert_eq!((loaded.args[0].0.as_str(), loaded.args[0].1.tag), ("a0", "Bool"));
    assert_eq!(loaded.ret.tag, "Unit");
}

#[test]
fn functions_come_out_ordered_by_name() {
    let schema = ApiSchema {
        cfunc: vec![
            ("zeta".to_string(), entry("", None, vec![])),
            ("alpha".to_string(), entry("", None, vec![])),
            ("Mid".to_string(), entry("", None, vec![])),
            ("uerust_m".to_string(), entry("", None, vec![])),
        ],
        rfunc: vec![("b".to_string(), entry("", None, vec![])), ("a".to_string(), entry("", None, vec![]))],
    };
    let (c, r) = process_api_schema(&schema).unwrap();
    assert_eq!(names(&c), vec!["Mid", "alpha", "uerust_log", "uerust_m", "zeta"]);
    assert_eq!(names(&r), vec!["a", "b", "uerust_loaded"]);
}

#[test]
fn same_names_keep_their_order() {
    let schema = ApiSchema {
        cfunc: vec![("uerust_log".to_string(), entry("mine", None, vec![]))],
        rfunc: vec![],
    };
    let (c, _) = process_api_schema(&schema).unwrap();
    assert_eq!(names(&c), vec!["uerust_log", "uerust_log"]);
    assert_eq!(c[0].doc, "mine");
    assert_eq!(c[1].doc, "");
}

#[test]
fn missing_return_type_is_unit() {
    let schema = ApiSchema { cfunc: vec![("f".to_string(), entry("", None, vec![]))], rfunc: vec![] };
    let (c, _) = process_api_schema(&schema).unwrap();
    assert_eq!(c[0].ret.tag, "Unit");
    assert_eq!(c[0].ret.c_type, "void");
}

#[test]
fn pairs_of_one_argument_object_are_kept_in_order() {
    let multi = Arg { inner: vec![("x".to_string(), "u8".to_string()), ("y".to_string(), "String".to_string())] };
    let schema = ApiSchema { cfunc: vec![("f".to_string(), entry("", None, vec![multi, arg("z", "bool")]))], rfunc: vec![] };
    let (c, _) = process_api_schema(&schema).unwrap();
    let keys: Vec<&str> = c[0].args.iter().map(|(k, _)| k.as_str()).collect();
    assert_eq!(keys, vec!["x", "y", "z"]);
    assert_eq!(c[0].args[1].1.tag, "String");
}

#[test]
fn unsupported_argument_type_fails() {
    let schema = ApiSchema { cfunc: vec![("f".to_string(), entry("", None, vec![arg("a", "i128")]))], rfunc: vec![] };
    let e = process_api_schema(&schema).err().unwrap();
    assert_eq!(e, "unsupported Rust type 'i128' (supported: 'i32', 'f64', 'bool', '&str', 'String', '()', etc.)");
}

#[test]
fn unsupported_return_type_fails() {
    let schema = ApiSchema { cfunc: vec![], rfunc: vec![("g".to_string(), entry("", Some("Vec<u8>"), vec![]))] };
    let e = process_api_schema(&schema).err().unwrap();
    assert_eq!(e, "unsupported Rust type 'Vec<u8>' (supported: 'i32', 'f64', 'bool', '&str', 'String', '()', etc.)");
}

#[test]
fn first_unsupported_type_is_reported() {
    let schema = ApiSchema {
        cfunc: vec![("f".to_string(), entry("", Some("r1"), vec![arg("a", "a1"), arg("b", "b1")]))],
        rfunc: vec![("g".to_string(), entry("", Some("r2"), vec![]))],
    };
    let e = process_api_schema(&schema).err().unwrap();
    assert!(e.starts_with("unsupported Rust type 'a1'"));
    let schema = ApiSchema {
        cfunc: vec![("f".to_string(), entry("", Some("r1"), vec![arg("a", "i32")]))],
        rfunc: vec![("g".to_string(), entry("", Some("r2"), vec![]))],
    };
    let e = process_api_schema(&schema).err().unwrap();
    assert!(e.starts_with("unsupported Rust type 'r1'"));
    let schema = ApiSchema {
        cfunc: vec![("f".to_string(), entry("", Some("i32"), vec![]))],
        rfunc: vec![("g".to_string(), entry("", Some("r2"), vec![]))],
    };
    let e = process_api_schema(&schema).err().unwrap();
    assert!(e.starts_with("unsupported Rust type 'r2'"));
}

#[test]
fn order_of_entries_does_not_matter() {
    let e = |n: &str, t: &str| (n.to_string(), entry("", Some(t), vec![arg("x", t)]));
    let one = ApiSchema { cfunc: vec![e("b", "u8"), e("a", "i32"), e("c", "bool")], rfunc: vec![e("q", "f64"), e("p", "u16")] };
    let two = ApiSchema { cfunc: vec![e("c", "bool"), e("b", "u8"), e("a", "i32")], rfunc: vec![e("p", "u16"), e("q", "f64")] };
    let (c1, r1) = process_api_schema(&one).unwrap();
    let (c2, r2) = process_api_schema(&two).unwrap();
    assert_eq!(names(&c1), names(&c2));
    assert_eq!(names(&r1), names(&r2));
    for (x, y) in c1.iter().zip(c2.iter()).chain(r1.iter().zip(r2.iter())) {
        assert_eq!(x.ret.tag, y.ret.tag);
        assert_eq!(x.args[0].1.tag, y.args[0].1.tag);
    }
    assert_eq!(uer::generate_files(&one, true).unwrap().module_cpp, uer::generate_files(&two, true).unwrap().module_cpp);
}

#[test]
fn order_does_not_matter_with_a_fixed_name() {
    let e = |n: &str, d: &str| (n.to_string(), entry(d, None, vec![]));
    let one = ApiSchema { cfunc: vec![e("uerust_log", "mine"), e("a", "")], rfunc: vec![e("uerust_loaded", "hook"), e("z", "")] };
    let two = ApiSchema { cfunc: vec![e("a", ""), e("uerust_log", "mine")], rfunc: vec![e("z", ""), e("uerust_loaded", "hook")] };
    let (c1, r1) = process_api_schema(&one).unwrap();
    let (c2, r2) = process_api_schema(&two).unwrap();
    let docs = |fs: &[FuncSpec]| fs.iter().map(|f| (f.name.clone(), f.doc.clone())).collect::<Vec<_>>();
    assert_eq!(docs(&c1), docs(&c2));
    assert_eq!(docs(&r1), docs(&r2));
    assert_eq!(names(&c1), vec!["a", "uerust_log", "uerust_log"]);
    assert_eq!(c1[1].doc, "mine");
    assert_eq!(names(&r1), vec!["uerust_loaded", "uerust_loaded", "z"]);
    assert_eq!(r1[0].doc, "hook");
}

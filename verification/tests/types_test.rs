use uer::TypeSpec;

fn row(ty: &str) -> TypeSpec {
    TypeSpec::from_rust_type(ty).unwrap()
}

#[test]
fn supported_types_of_the_readme() {
    let names = [
        "bool", "u8", "i8", "u16", "i16", "u32", "i32", "u64", "i64", "f32", "f64", "*f64",
        "*mut f64", "*u8", "usize", "isize", "c_void", "*c_void", "*mut c_void", "&str", "String",
    ];
    for n in names {
        assert!(TypeSpec::from_rust_type(n).is_ok(), "{n}");
    }
}

#[test]
fn unit_row() {
    let t = row("()");
    assert_eq!(t.c_type, "void");
    assert_eq!(t.rust_type, "()");
    assert_eq!(t.rust_macro_type, "()");
    assert!(!t.is_buf_like);
    assert_eq!(t.tag, "Unit");
}

#[test]
fn integer_rows() {
    let t = row("i8");
    assert_eq!((t.c_type, t.rust_type, t.rust_macro_type, t.tag), ("int8_t", "i8", "u8", "I8"));
    let t = row("u64");
    assert_eq!((t.c_type, t.rust_type, t.rust_macro_type, t.tag), ("uint64_t", "u64", "u64", "U64"));
    let t = row("usize");
    assert_eq!((t.c_type, t.rust_type, t.rust_macro_type, t.tag), ("uintptr_t", "usize", "usize", "USize"));
    let t = row("isize");
    assert_eq!((t.c_type, t.rust_type, t.rust_macro_type, t.tag), ("size_t", "isize", "isize", "ISize"));
}

#[test]
fn pointer_rows() {
    let t = row("*f64");
    assert_eq!((t.c_type, t.rust_type, t.rust_macro_type, t.tag), ("double const*", "*const f64", "&f64", "F64CPtr"));
    let t = row("*mut f64");
    assert_eq!((t.c_type, t.rust_type, t.rust_macro_type, t.tag), ("double*", "*mut f64", "&mut f64", "F64Ptr"));
    let t = row("c_void");
    assert_eq!((t.c_type, t.rust_type, t.rust_macro_type, t.tag), ("void*", "*mut std::ffi::c_void", "Box<_>", "Void"));
    let t = row("*c_void");
    assert_eq!((t.c_type, t.rust_macro_type, t.tag), ("void const*", "&Box<_>", "CPtr"));
    let t = row("*mut c_void");
    assert_eq!((t.c_type, t.rust_macro_type, t.tag), ("void*", "&mut Box<_>", "Ptr"));
}

#[test]
fn byte_pointer_row() {
    let t = row("*u8");
    assert_eq!((t.c_type, t.rust_type, t.rust_macro_type, t.tag), ("uint8_t const*", "*const u8", "&u8", "U8CPtr"));
    assert!(!t.is_buf_like);
}

#[test]
fn string_rows_and_aliases() {
    for n in ["&str", "& str", "str"] {
        let t = row(n);
        assert_eq!((t.c_type, t.rust_type, t.tag), ("uint8_t const*", "&str", "Buf"));
        assert!(t.is_buf_like);
    }
    for n in ["String", "string"] {
        let t = row(n);
        assert_eq!((t.c_type, t.rust_type, t.tag), ("uint8_t*", "String", "String"));
        assert!(t.is_buf_like);
    }
    assert!(!row("bool").is_buf_like);
}

#[test]
fn white_space_around_a_name_is_ignored() {
    assert_eq!(row("  i32 ").tag, "I32");
    assert_eq!(row("\t&str\n").tag, "Buf");
    assert_eq!(row("\u{3000}f64\u{a0}").tag, "F64");
    assert_eq!(row(" *mut f64 ").tag, "F64Ptr");
}

#[test]
fn unsupported_type_is_rejected_with_its_message() {
    let e = TypeSpec::from_rust_type("char").unwrap_err();
    assert_eq!(e, "unsupported Rust type 'char' (supported: 'i32', 'f64', 'bool', '&str', 'String', '()', etc.)");
}

#[test]
fn rejected_name_is_shown_trimmed() {
    let e = TypeSpec::from_rust_type("  Vec<u8> ").unwrap_err();
    assert_eq!(e, "unsupported Rust type 'Vec<u8>' (supported: 'i32', 'f64', 'bool', '&str', 'String', '()', etc.)");
}

#[test]
fn inner_space_is_not_removed() {
    assert!(TypeSpec::from_rust_type("*mut  f64").is_err());
    assert!(TypeSpec::from_rust_type("").is_err());
}

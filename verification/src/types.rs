//! The types that an API description may name, and how each one is written in
//! C, in Rust, in the `uerust_ffi!` macro and as a tag of the argument union.
use vstd::prelude::*;

use crate::text::{
    ascii_lower,
    str_eq, trim, trim_spec, is_white_space, trim_start_spec, lemma_trim_idempotent,
};

verus! {

/// How one type of the API description is spelled on each side of the bridge.
#[derive(Clone, Copy, Debug)]
pub struct TypeSpec {
    /// The C++ spelling.
    pub c_type: &'static str,
    /// The Rust spelling.
    pub rust_type: &'static str,
    /// The spelling inside a `uerust_ffi!` signature.
    pub rust_macro_type: &'static str,
    /// Whether a value crosses the bridge as a pointer and a length.
    pub is_buf_like: bool,
    /// The variant of `ArgTag` that marks a value of this type.
    pub tag: &'static str,
}

/// The type that a (trimmed) type name stands for, or `None` for a name that
/// is not supported.
pub open spec fn supported_type(ty: Seq<char>) -> Option<TypeSpec> {
    if ty == "()"@ {
        Some(TypeSpec { c_type: "void", rust_type: "()", rust_macro_type: "()", is_buf_like: false, tag: "Unit" })
    } else if ty == "bool"@ {
        Some(TypeSpec { c_type: "bool", rust_type: "bool", rust_macro_type: "bool", is_buf_like: false, tag: "Bool" })
    } else if ty == "i8"@ {
        Some(TypeSpec { c_type: "int8_t", rust_type: "i8", rust_macro_type: "u8", is_buf_like: false, tag: "I8" })
    } else if ty == "u8"@ {
        Some(TypeSpec { c_type: "uint8_t", rust_type: "u8", rust_macro_type: "u8", is_buf_like: false, tag: "U8" })
    } else if ty == "i16"@ {
        Some(TypeSpec { c_type: "int16_t", rust_type: "i16", rust_macro_type: "i16", is_buf_like: false, tag: "I16" })
    } else if ty == "u16"@ {
        Some(TypeSpec { c_type: "uint16_t", rust_type: "u16", rust_macro_type: "u16", is_buf_like: false, tag: "U16" })
    } else if ty == "i32"@ {
        Some(TypeSpec { c_type: "int32_t", rust_type: "i32", rust_macro_type: "i32", is_buf_like: false, tag: "I32" })
    } else if ty == "u32"@ {
        Some(TypeSpec { c_type: "uint32_t", rust_type: "u32", rust_macro_type: "u32", is_buf_like: false, tag: "U32" })
    } else if ty == "i64"@ {
        Some(TypeSpec { c_type: "int64_t", rust_type: "i64", rust_macro_type: "i64", is_buf_like: false, tag: "I64" })
    } else if ty == "u64"@ {
        Some(TypeSpec { c_type: "uint64_t", rust_type: "u64", rust_macro_type: "u64", is_buf_like: false, tag: "U64" })
    } else if ty == "f32"@ {
        Some(TypeSpec { c_type: "float", rust_type: "f32", rust_macro_type: "f32", is_buf_like: false, tag: "F32" })
    } else if ty == "f64"@ {
        Some(TypeSpec { c_type: "double", rust_type: "f64", rust_macro_type: "f64", is_buf_like: false, tag: "F64" })
    } else if ty == "*f64"@ {
        Some(TypeSpec { c_type: "double const*", rust_type: "*const f64", rust_macro_type: "&f64", is_buf_like: false, tag: "F64CPtr" })
    } else if ty == "*mut f64"@ {
        Some(TypeSpec { c_type: "double*", rust_type: "*mut f64", rust_macro_type: "&mut f64", is_buf_like: false, tag: "F64Ptr" })
    } else if ty == "*u8"@ {
        Some(TypeSpec { c_type: "uint8_t const*", rust_type: "*const u8", rust_macro_type: "&u8", is_buf_like: false, tag: "U8CPtr" })
    } else if ty == "usize"@ {
        Some(TypeSpec { c_type: "uintptr_t", rust_type: "usize", rust_macro_type: "usize", is_buf_like: false, tag: "USize" })
    } else if ty == "isize"@ {
        Some(TypeSpec { c_type: "size_t", rust_type: "isize", rust_macro_type: "isize", is_buf_like: false, tag: "ISize" })
    } else if ty == "c_void"@ {
        Some(TypeSpec { c_type: "void*", rust_type: "*mut std::ffi::c_void", rust_macro_type: "Box<_>", is_buf_like: false, tag: "Void" })
    } else if ty == "*c_void"@ {
        Some(TypeSpec { c_type: "void const*", rust_type: "*const std::ffi::c_void", rust_macro_type: "&Box<_>", is_buf_like: false, tag: "CPtr" })
    } else if ty == "*mut c_void"@ {
        Some(TypeSpec { c_type: "void*", rust_type: "*mut std::ffi::c_void", rust_macro_type: "&mut Box<_>", is_buf_like: false, tag: "Ptr" })
    } else if ty == "&str"@ || ty == "& str"@ || ty == "str"@ {
        Some(TypeSpec { c_type: "uint8_t const*", rust_type: "&str", rust_macro_type: "&str", is_buf_like: true, tag: "Buf" })
    } else if ty == "String"@ || ty == "string"@ {
        Some(TypeSpec { c_type: "uint8_t*", rust_type: "String", rust_macro_type: "String", is_buf_like: true, tag: "String" })
    } else {
        None
    }
}

/// The message that rejects the (trimmed) type name `ty`.
pub open spec fn unsupported_message(ty: Seq<char>) -> Seq<char> {
    "unsupported Rust type '"@ + ty + "' (supported: 'i32', 'f64', 'bool', '&str', 'String', '()', etc.)"@
}

/// What a type name of the API description stands for: the name is trimmed of
/// white space first, and an unsupported name gives its message.
pub open spec fn parse_type(ty: Seq<char>) -> Result<TypeSpec, Seq<char>> {
    match supported_type(trim_spec(ty)) {
        Some(t) => Ok(t),
        None => Err(unsupported_message(trim_spec(ty))),
    }
}

/// Whether `r` is what `parse_type` gives for `ty`, with the message taken by
/// its view.
pub open spec fn parsed_as(r: Result<TypeSpec, String>, ty: Seq<char>) -> bool {
    match r {
        Ok(t) => parse_type(ty) == Ok::<TypeSpec, Seq<char>>(t),
        Err(e) => parse_type(ty) == Err::<TypeSpec, Seq<char>>(e@),
    }
}

impl TypeSpec {
    /// Looks up the type that the name `ty` stands for, after trimming it.
    pub fn from_rust_type(ty: &str) -> (r: Result<Self, String>)
        ensures
            parsed_as(r, ty@),
    {
        let ty = trim(ty);
        if str_eq(ty, "()") {
            Ok(TypeSpec { c_type: "void", rust_type: "()", rust_macro_type: "()", is_buf_like: false, tag: "Unit" })
        } else if str_eq(ty, "bool") {
            Ok(TypeSpec { c_type: "bool", rust_type: "bool", rust_macro_type: "bool", is_buf_like: false, tag: "Bool" })
        } else if str_eq(ty, "i8") {
            Ok(TypeSpec { c_type: "int8_t", rust_type: "i8", rust_macro_type: "u8", is_buf_like: false, tag: "I8" })
        } else if str_eq(ty, "u8") {
            Ok(TypeSpec { c_type: "uint8_t", rust_type: "u8", rust_macro_type: "u8", is_buf_like: false, tag: "U8" })
        } else if str_eq(ty, "i16") {
            Ok(TypeSpec { c_type: "int16_t", rust_type: "i16", rust_macro_type: "i16", is_buf_like: false, tag: "I16" })
        } else if str_eq(ty, "u16") {
            Ok(TypeSpec { c_type: "uint16_t", rust_type: "u16", rust_macro_type: "u16", is_buf_like: false, tag: "U16" })
        } else if str_eq(ty, "i32") {
            Ok(TypeSpec { c_type: "int32_t", rust_type: "i32", rust_macro_type: "i32", is_buf_like: false, tag: "I32" })
        } else if str_eq(ty, "u32") {
            Ok(TypeSpec { c_type: "uint32_t", rust_type: "u32", rust_macro_type: "u32", is_buf_like: false, tag: "U32" })
        } else if str_eq(ty, "i64") {
            Ok(TypeSpec { c_type: "int64_t", rust_type: "i64", rust_macro_type: "i64", is_buf_like: false, tag: "I64" })
        } else if str_eq(ty, "u64") {
            Ok(TypeSpec { c_type: "uint64_t", rust_type: "u64", rust_macro_type: "u64", is_buf_like: false, tag: "U64" })
        } else if str_eq(ty, "f32") {
            Ok(TypeSpec { c_type: "float", rust_type: "f32", rust_macro_type: "f32", is_buf_like: false, tag: "F32" })
        } else if str_eq(ty, "f64") {
            Ok(TypeSpec { c_type: "double", rust_type: "f64", rust_macro_type: "f64", is_buf_like: false, tag: "F64" })
        } else if str_eq(ty, "*f64") {
            Ok(TypeSpec { c_type: "double const*", rust_type: "*const f64", rust_macro_type: "&f64", is_buf_like: false, tag: "F64CPtr" })
        } else if str_eq(ty, "*mut f64") {
            Ok(TypeSpec { c_type: "double*", rust_type: "*mut f64", rust_macro_type: "&mut f64", is_buf_like: false, tag: "F64Ptr" })
        } else if str_eq(ty, "*u8") {
            Ok(TypeSpec { c_type: "uint8_t const*", rust_type: "*const u8", rust_macro_type: "&u8", is_buf_like: false, tag: "U8CPtr" })
        } else if str_eq(ty, "usize") {
            Ok(TypeSpec { c_type: "uintptr_t", rust_type: "usize", rust_macro_type: "usize", is_buf_like: false, tag: "USize" })
        } else if str_eq(ty, "isize") {
            Ok(TypeSpec { c_type: "size_t", rust_type: "isize", rust_macro_type: "isize", is_buf_like: false, tag: "ISize" })
        } else if str_eq(ty, "c_void") {
            Ok(TypeSpec { c_type: "void*", rust_type: "*mut std::ffi::c_void", rust_macro_type: "Box<_>", is_buf_like: false, tag: "Void" })
        } else if str_eq(ty, "*c_void") {
            Ok(TypeSpec { c_type: "void const*", rust_type: "*const std::ffi::c_void", rust_macro_type: "&Box<_>", is_buf_like: false, tag: "CPtr" })
        } else if str_eq(ty, "*mut c_void") {
            Ok(TypeSpec { c_type: "void*", rust_type: "*mut std::ffi::c_void", rust_macro_type: "&mut Box<_>", is_buf_like: false, tag: "Ptr" })
        } else if str_eq(ty, "&str") || str_eq(ty, "& str") || str_eq(ty, "str") {
            Ok(TypeSpec { c_type: "uint8_t const*", rust_type: "&str", rust_macro_type: "&str", is_buf_like: true, tag: "Buf" })
        } else if str_eq(ty, "String") || str_eq(ty, "string") {
            Ok(TypeSpec { c_type: "uint8_t*", rust_type: "String", rust_macro_type: "String", is_buf_like: true, tag: "String" })
        } else {
            let mut msg = String::new();
            msg.append("unsupported Rust type '");
            msg.append(ty);
            msg.append("' (supported: 'i32', 'f64', 'bool', '&str', 'String', '()', etc.)");
            Err(msg)
        }
    }
}


/// The type names that the generator itself asks for are supported and are
/// their own trimmed form.
pub proof fn lemma_builtin_type_names()
    ensures
        parse_type("()"@) == Ok::<TypeSpec, Seq<char>>(TypeSpec { c_type: "void", rust_type: "()", rust_macro_type: "()", is_buf_like: false, tag: "Unit" }),
        parse_type("bool"@) == Ok::<TypeSpec, Seq<char>>(TypeSpec { c_type: "bool", rust_type: "bool", rust_macro_type: "bool", is_buf_like: false, tag: "Bool" }),
        parse_type("u8"@) == Ok::<TypeSpec, Seq<char>>(TypeSpec { c_type: "uint8_t", rust_type: "u8", rust_macro_type: "u8", is_buf_like: false, tag: "U8" }),
        parse_type("usize"@) == Ok::<TypeSpec, Seq<char>>(TypeSpec { c_type: "uintptr_t", rust_type: "usize", rust_macro_type: "usize", is_buf_like: false, tag: "USize" }),
        parse_type("&str"@) == Ok::<TypeSpec, Seq<char>>(TypeSpec { c_type: "uint8_t const*", rust_type: "&str", rust_macro_type: "&str", is_buf_like: true, tag: "Buf" }),
{
    reveal_strlit("()");
    reveal_strlit("bool");
    reveal_strlit("i8");
    reveal_strlit("u8");
    reveal_strlit("i16");
    reveal_strlit("u16");
    reveal_strlit("i32");
    reveal_strlit("u32");
    reveal_strlit("i64");
    reveal_strlit("u64");
    reveal_strlit("f32");
    reveal_strlit("f64");
    reveal_strlit("*f64");
    reveal_strlit("*mut f64");
    reveal_strlit("*u8");
    reveal_strlit("usize");
    reveal_strlit("isize");
    reveal_strlit("c_void");
    reveal_strlit("*c_void");
    reveal_strlit("*mut c_void");
    reveal_strlit("&str");
    reveal_strlit("& str");
    reveal_strlit("str");
    reveal_strlit("String");
    reveal_strlit("string");
    lemma_trim_plain("()"@);
    lemma_trim_plain("bool"@);
    lemma_trim_plain("u8"@);
    lemma_trim_plain("usize"@);
    lemma_trim_plain("&str"@);
}

proof fn lemma_trim_plain(s: Seq<char>)
    requires
        s.len() > 0,
        !is_white_space(s[0]),
        !is_white_space(s.last()),
    ensures
        trim_spec(s) == s,
{
    assert(trim_start_spec(s) == s);
}


/// The type that `usize` names; the generators write the length of a buffer
/// with it.
pub open spec fn usize_type() -> TypeSpec {
    parse_type("usize"@)->Ok_0
}

/// Looks up the type that `usize` names.
pub fn usize_type_spec() -> (t: TypeSpec)
    ensures
        t == usize_type(),
{
    proof {
        lemma_builtin_type_names();
    }
    let r = TypeSpec::from_rust_type("usize");
    r.unwrap()
}

/// White space around a type name does not change what it stands for, nor
/// the message that rejects it.
pub proof fn lemma_parse_type_ignores_white_space(ty: Seq<char>)
    ensures
        parse_type(trim_spec(ty)) == parse_type(ty),
{
    lemma_trim_idempotent(ty);
}

/// A type travels as a buffer exactly when its tag is `Buf` or `String`.
pub proof fn lemma_buffers_are_tagged(ty: Seq<char>)
    requires
        supported_type(ty) is Some,
    ensures
        supported_type(ty)->Some_0.is_buf_like <==> (supported_type(ty)->Some_0.tag == "Buf"
            || supported_type(ty)->Some_0.tag == "String"),
{
}


/// The names of the fixed-width integers.
pub open spec fn is_integer_name(ty: Seq<char>) -> bool {
    ty == "i8"@ || ty == "u8"@ || ty == "i16"@ || ty == "u16"@ || ty == "i32"@ || ty == "u32"@
        || ty == "i64"@ || ty == "u64"@
}

/// A fixed-width integer keeps its width and its signedness on both sides: it
/// is the C type `int<width>_t` or `uint<width>_t`, the Rust type of the same
/// name, travels by value, and is tagged with its name in capitals.
pub proof fn lemma_integer_types_keep_width_and_sign(ty: Seq<char>)
    requires
        is_integer_name(ty),
    ensures
        parse_type(ty) is Ok,
        parse_type(ty)->Ok_0.rust_type@ == ty,
        parse_type(ty)->Ok_0.c_type@ == (if ty[0] == 'u' {
            "uint"@
        } else {
            "int"@
        }) + ty.drop_first() + "_t"@,
        !parse_type(ty)->Ok_0.is_buf_like,
        ascii_lower(parse_type(ty)->Ok_0.tag@) == ty,
{
    reveal_strlit("()");
    reveal_strlit("bool");
    reveal_strlit("i8");
    reveal_strlit("u8");
    reveal_strlit("i16");
    reveal_strlit("u16");
    reveal_strlit("i32");
    reveal_strlit("u32");
    reveal_strlit("i64");
    reveal_strlit("u64");
    reveal_strlit("f32");
    reveal_strlit("f64");
    reveal_strlit("*f64");
    reveal_strlit("*mut f64");
    reveal_strlit("*u8");
    reveal_strlit("usize");
    reveal_strlit("isize");
    reveal_strlit("c_void");
    reveal_strlit("*c_void");
    reveal_strlit("*mut c_void");
    reveal_strlit("&str");
    reveal_strlit("& str");
    reveal_strlit("str");
    reveal_strlit("String");
    reveal_strlit("string");
    reveal_strlit("int");
    reveal_strlit("uint");
    reveal_strlit("_t");
    reveal_strlit("8");
    reveal_strlit("16");
    reveal_strlit("32");
    reveal_strlit("64");
    reveal_strlit("int8_t");
    reveal_strlit("uint8_t");
    reveal_strlit("int16_t");
    reveal_strlit("uint16_t");
    reveal_strlit("int32_t");
    reveal_strlit("uint32_t");
    reveal_strlit("int64_t");
    reveal_strlit("uint64_t");
    reveal_strlit("I8");
    reveal_strlit("U8");
    reveal_strlit("I16");
    reveal_strlit("U16");
    reveal_strlit("I32");
    reveal_strlit("U32");
    reveal_strlit("I64");
    reveal_strlit("U64");
    lemma_trim_plain(ty);
    let t = parse_type(ty)->Ok_0;
    if ty == "i8"@ {
        assert(ty.drop_first() =~= "8"@);
        assert(t.c_type@ =~= (if ty[0] == 'u' { "uint"@ } else { "int"@ }) + ty.drop_first() + "_t"@);
        assert(ascii_lower(t.tag@) =~= ty);
    }
    if ty == "u8"@ {
        assert(ty.drop_first() =~= "8"@);
        assert(t.c_type@ =~= (if ty[0] == 'u' { "uint"@ } else { "int"@ }) + ty.drop_first() + "_t"@);
        assert(ascii_lower(t.tag@) =~= ty);
    }
    if ty == "i16"@ {
        assert(ty.drop_first() =~= "16"@);
        assert(t.c_type@ =~= (if ty[0] == 'u' { "uint"@ } else { "int"@ }) + ty.drop_first() + "_t"@);
        assert(ascii_lower(t.tag@) =~= ty);
    }
    if ty == "u16"@ {
        assert(ty.drop_first() =~= "16"@);
        assert(t.c_type@ =~= (if ty[0] == 'u' { "uint"@ } else { "int"@ }) + ty.drop_first() + "_t"@);
        assert(ascii_lower(t.tag@) =~= ty);
    }
    if ty == "i32"@ {
        assert(ty.drop_first() =~= "32"@);
        assert(t.c_type@ =~= (if ty[0] == 'u' { "uint"@ } else { "int"@ }) + ty.drop_first() + "_t"@);
        assert(ascii_lower(t.tag@) =~= ty);
    }
    if ty == "u32"@ {
        assert(ty.drop_first() =~= "32"@);
        assert(t.c_type@ =~= (if ty[0] == 'u' { "uint"@ } else { "int"@ }) + ty.drop_first() + "_t"@);
        assert(ascii_lower(t.tag@) =~= ty);
    }
    if ty == "i64"@ {
        assert(ty.drop_first() =~= "64"@);
        assert(t.c_type@ =~= (if ty[0] == 'u' { "uint"@ } else { "int"@ }) + ty.drop_first() + "_t"@);
        assert(ascii_lower(t.tag@) =~= ty);
    }
    if ty == "u64"@ {
        assert(ty.drop_first() =~= "64"@);
        assert(t.c_type@ =~= (if ty[0] == 'u' { "uint"@ } else { "int"@ }) + ty.drop_first() + "_t"@);
        assert(ascii_lower(t.tag@) =~= ty);
    }
}

/// A float keeps its width: `f32` is the C `float`, `f64` the C `double`; each
/// is the Rust type of its name, travels by value and is tagged with its name
/// in capitals.
pub proof fn lemma_float_types_keep_width(ty: Seq<char>)
    requires
        ty == "f32"@ || ty == "f64"@,
    ensures
        parse_type(ty) is Ok,
        parse_type(ty)->Ok_0.rust_type@ == ty,
        parse_type(ty)->Ok_0.c_type@ == if ty == "f32"@ {
            "float"@
        } else {
            "double"@
        },
        !parse_type(ty)->Ok_0.is_buf_like,
        ascii_lower(parse_type(ty)->Ok_0.tag@) == ty,
{
    reveal_strlit("()");
    reveal_strlit("bool");
    reveal_strlit("i8");
    reveal_strlit("u8");
    reveal_strlit("i16");
    reveal_strlit("u16");
    reveal_strlit("i32");
    reveal_strlit("u32");
    reveal_strlit("i64");
    reveal_strlit("u64");
    reveal_strlit("f32");
    reveal_strlit("f64");
    reveal_strlit("*f64");
    reveal_strlit("*mut f64");
    reveal_strlit("*u8");
    reveal_strlit("usize");
    reveal_strlit("isize");
    reveal_strlit("c_void");
    reveal_strlit("*c_void");
    reveal_strlit("*mut c_void");
    reveal_strlit("&str");
    reveal_strlit("& str");
    reveal_strlit("str");
    reveal_strlit("String");
    reveal_strlit("string");
    reveal_strlit("F32");
    reveal_strlit("F64");
    lemma_trim_plain(ty);
    let t = parse_type(ty)->Ok_0;
    assert(ascii_lower(t.tag@) =~= ty);
}


/// Every type name that the API description may use, with what it stands for
/// on each side of the bridge.
pub proof fn lemma_type_table()
    ensures
        parse_type("()"@) == Ok::<TypeSpec, Seq<char>>(TypeSpec { c_type: "void", rust_type: "()", rust_macro_type: "()", is_buf_like: false, tag: "Unit" }),
        parse_type("bool"@) == Ok::<TypeSpec, Seq<char>>(TypeSpec { c_type: "bool", rust_type: "bool", rust_macro_type: "bool", is_buf_like: false, tag: "Bool" }),
        parse_type("i8"@) == Ok::<TypeSpec, Seq<char>>(TypeSpec { c_type: "int8_t", rust_type: "i8", rust_macro_type: "u8", is_buf_like: false, tag: "I8" }),
        parse_type("u8"@) == Ok::<TypeSpec, Seq<char>>(TypeSpec { c_type: "uint8_t", rust_type: "u8", rust_macro_type: "u8", is_buf_like: false, tag: "U8" }),
        parse_type("i16"@) == Ok::<TypeSpec, Seq<char>>(TypeSpec { c_type: "int16_t", rust_type: "i16", rust_macro_type: "i16", is_buf_like: false, tag: "I16" }),
        parse_type("u16"@) == Ok::<TypeSpec, Seq<char>>(TypeSpec { c_type: "uint16_t", rust_type: "u16", rust_macro_type: "u16", is_buf_like: false, tag: "U16" }),
        parse_type("i32"@) == Ok::<TypeSpec, Seq<char>>(TypeSpec { c_type: "int32_t", rust_type: "i32", rust_macro_type: "i32", is_buf_like: false, tag: "I32" }),
        parse_type("u32"@) == Ok::<TypeSpec, Seq<char>>(TypeSpec { c_type: "uint32_t", rust_type: "u32", rust_macro_type: "u32", is_buf_like: false, tag: "U32" }),
        parse_type("i64"@) == Ok::<TypeSpec, Seq<char>>(TypeSpec { c_type: "int64_t", rust_type: "i64", rust_macro_type: "i64", is_buf_like: false, tag: "I64" }),
        parse_type("u64"@) == Ok::<TypeSpec, Seq<char>>(TypeSpec { c_type: "uint64_t", rust_type: "u64", rust_macro_type: "u64", is_buf_like: false, tag: "U64" }),
        parse_type("f32"@) == Ok::<TypeSpec, Seq<char>>(TypeSpec { c_type: "float", rust_type: "f32", rust_macro_type: "f32", is_buf_like: false, tag: "F32" }),
        parse_type("f64"@) == Ok::<TypeSpec, Seq<char>>(TypeSpec { c_type: "double", rust_type: "f64", rust_macro_type: "f64", is_buf_like: false, tag: "F64" }),
        parse_type("*f64"@) == Ok::<TypeSpec, Seq<char>>(TypeSpec { c_type: "double const*", rust_type: "*const f64", rust_macro_type: "&f64", is_buf_like: false, tag: "F64CPtr" }),
        parse_type("*mut f64"@) == Ok::<TypeSpec, Seq<char>>(TypeSpec { c_type: "double*", rust_type: "*mut f64", rust_macro_type: "&mut f64", is_buf_like: false, tag: "F64Ptr" }),
        parse_type("*u8"@) == Ok::<TypeSpec, Seq<char>>(TypeSpec { c_type: "uint8_t const*", rust_type: "*const u8", rust_macro_type: "&u8", is_buf_like: false, tag: "U8CPtr" }),
        parse_type("usize"@) == Ok::<TypeSpec, Seq<char>>(TypeSpec { c_type: "uintptr_t", rust_type: "usize", rust_macro_type: "usize", is_buf_like: false, tag: "USize" }),
        parse_type("isize"@) == Ok::<TypeSpec, Seq<char>>(TypeSpec { c_type: "size_t", rust_type: "isize", rust_macro_type: "isize", is_buf_like: false, tag: "ISize" }),
        parse_type("c_void"@) == Ok::<TypeSpec, Seq<char>>(TypeSpec { c_type: "void*", rust_type: "*mut std::ffi::c_void", rust_macro_type: "Box<_>", is_buf_like: false, tag: "Void" }),
        parse_type("*c_void"@) == Ok::<TypeSpec, Seq<char>>(TypeSpec { c_type: "void const*", rust_type: "*const std::ffi::c_void", rust_macro_type: "&Box<_>", is_buf_like: false, tag: "CPtr" }),
        parse_type("*mut c_void"@) == Ok::<TypeSpec, Seq<char>>(TypeSpec { c_type: "void*", rust_type: "*mut std::ffi::c_void", rust_macro_type: "&mut Box<_>", is_buf_like: false, tag: "Ptr" }),
        parse_type("&str"@) == Ok::<TypeSpec, Seq<char>>(TypeSpec { c_type: "uint8_t const*", rust_type: "&str", rust_macro_type: "&str", is_buf_like: true, tag: "Buf" }),
        parse_type("& str"@) == Ok::<TypeSpec, Seq<char>>(TypeSpec { c_type: "uint8_t const*", rust_type: "&str", rust_macro_type: "&str", is_buf_like: true, tag: "Buf" }),
        parse_type("str"@) == Ok::<TypeSpec, Seq<char>>(TypeSpec { c_type: "uint8_t const*", rust_type: "&str", rust_macro_type: "&str", is_buf_like: true, tag: "Buf" }),
        parse_type("String"@) == Ok::<TypeSpec, Seq<char>>(TypeSpec { c_type: "uint8_t*", rust_type: "String", rust_macro_type: "String", is_buf_like: true, tag: "String" }),
        parse_type("string"@) == Ok::<TypeSpec, Seq<char>>(TypeSpec { c_type: "uint8_t*", rust_type: "String", rust_macro_type: "String", is_buf_like: true, tag: "String" }),
{
    reveal_strlit("()");
    reveal_strlit("bool");
    reveal_strlit("i8");
    reveal_strlit("u8");
    reveal_strlit("i16");
    reveal_strlit("u16");
    reveal_strlit("i32");
    reveal_strlit("u32");
    reveal_strlit("i64");
    reveal_strlit("u64");
    reveal_strlit("f32");
    reveal_strlit("f64");
    reveal_strlit("*f64");
    reveal_strlit("*mut f64");
    reveal_strlit("*u8");
    reveal_strlit("usize");
    reveal_strlit("isize");
    reveal_strlit("c_void");
    reveal_strlit("*c_void");
    reveal_strlit("*mut c_void");
    reveal_strlit("&str");
    reveal_strlit("& str");
    reveal_strlit("str");
    reveal_strlit("String");
    reveal_strlit("string");
    lemma_trim_plain("()"@);
    lemma_trim_plain("bool"@);
    lemma_trim_plain("i8"@);
    lemma_trim_plain("u8"@);
    lemma_trim_plain("i16"@);
    lemma_trim_plain("u16"@);
    lemma_trim_plain("i32"@);
    lemma_trim_plain("u32"@);
    lemma_trim_plain("i64"@);
    lemma_trim_plain("u64"@);
    lemma_trim_plain("f32"@);
    lemma_trim_plain("f64"@);
    lemma_trim_plain("*f64"@);
    lemma_trim_plain("*mut f64"@);
    lemma_trim_plain("*u8"@);
    lemma_trim_plain("usize"@);
    lemma_trim_plain("isize"@);
    lemma_trim_plain("c_void"@);
    lemma_trim_plain("*c_void"@);
    lemma_trim_plain("*mut c_void"@);
    lemma_trim_plain("&str"@);
    lemma_trim_plain("& str"@);
    lemma_trim_plain("str"@);
    lemma_trim_plain("String"@);
    lemma_trim_plain("string"@);
}

}

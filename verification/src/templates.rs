//! The fixed text that the generated files are made of.
use vstd::prelude::*;

verus! {

/// The opening of `bindings.rs`: its banner and the head of `rinvoke`.
pub const RUST_HEAD: &'static str = "// Auto-generated by uer — do not edit
extern \"C\" fn rinvoke(rmethod_id: u16, args: *const Argument, num_args: usize) -> Return {
    let args = unsafe { std::slice::from_raw_parts(args, num_args) };
";

/// The close of `rinvoke` and the types and entry points that every `bindings.rs` holds.
pub const RUST_RUNTIME: &'static str = "    Return::none()
}

#[allow(non_snake_case)] #[repr(C)] pub struct UERustRsApi {
    pub rinvoke: extern \"C\" fn(rmethod_id: u16, args: *const Argument, num_args: usize) -> Return,
}

#[allow(non_snake_case)] #[repr(C)] pub struct UERustCApi {
    pub invoke: extern \"C\" fn(method_id: u16, args: *const Argument, num_args: usize) -> Return,
}

#[allow(non_snake_case)] static CAPI: std::sync::OnceLock<UERustCApi> = std::sync::OnceLock::new();
#[allow(dead_code)] #[allow(non_snake_case)] fn GetUERustCApi() -> &'static UERustCApi { CAPI.get().expect(\"uerust capi not initialized\") }
#[allow(non_snake_case)] #[unsafe(no_mangle)] pub extern \"C\" fn GetUERustRsApi_0(capi: UERustCApi) -> UERustRsApi {
    CAPI.get_or_init(|| capi);
    UERustRsApi {
        rinvoke,
    }}

use std::mem::ManuallyDrop;

#[repr(C)]
pub struct Buffer {
    pub ptr: *const u8,
    pub len: usize,
}
#[derive(PartialEq, Eq, Debug)]
#[allow(unused)]
#[repr(u8)]
pub enum ArgTag {
    Unit, Bool, U8, I8, U16, I16, U32, I32, U64, I64, F32, F64, F64CPtr, F64Ptr, USize, ISize, Void, CPtr, Ptr, Buf, String, U8CPtr,
}
#[repr(C)]
pub union ArgType {
    bool_val: bool,
    u8_val: u8,
    i8_val: i8,
    u16_val: u16,
    i16_val: i16,
    u32_val: u32,
    i32_val: i32,
    u64_val: u64,
    i64_val: i64,
    f32_val: f32,
    f64_val: f64,
    f64cptr_val: *const f64,
    f64ptr_val: *mut f64,
    u8cptr_val: *const u8,
    usize_val: usize,
    isize_val: isize,
    void_val: *mut std::ffi::c_void,
    cptr_val: *const std::ffi::c_void,
    ptr_val: *mut std::ffi::c_void,
    buf_val: ManuallyDrop<Buffer>,
}
#[repr(C)]
pub struct Argument {
    pub tag: ArgTag,
    pub value: ArgType,
}
#[repr(C)]
pub struct Return {
    pub is_some: bool,
    pub data: Argument,
}
#[allow(dead_code)]
impl Return {
    pub fn none() -> Self {
        Self { is_some: false, data: Argument { tag: ArgTag::Bool, value: ArgType { bool_val: false } } }
    }
    pub fn some(data: Argument) -> Self { Self { is_some: true, data } }
}
";

/// The `uerust_ffi!` macro that closes every `bindings.rs`.
pub const RUST_FFI_MACRO: &'static str = r#"
#[macro_export]
macro_rules! uerust_ffi {
    // =========================================================================
    // Entry Points: Catch the initial function layout
    // =========================================================================
    
    // Pattern 1: Function returns an owned Box
    (fn $name:ident ($($args:tt)*) -> Box<$ret:ty> $body:block) => {
        uerust_ffi!(@munch
            [ $($args)* ] [] [] [] []
            [ @kind [ box_ret ] @name [ $name ] @body [ $body ] ]
        );
    };

    // Pattern 2: Standard or empty/void return function
    (fn $name:ident ($($args:tt)*) $body:block) => {
        uerust_ffi!(@munch
            [ $($args)* ] [] [] [] []
            [ @kind [ normal_ret ] @name [ $name ] @body [ $body ] ]
        );
    };

    // Pattern 3: Standard or empty/void return function
    (fn $name:ident ($($args:tt)*) -> $ret:ty $body:block) => {
        uerust_ffi!(@munch
            [ $($args)* ] [] [] [] []
            [ @kind [ $ret ] @name [ $name ] @body [ $body ] ]
        );
    };

    // =========================================================================
    // TT Muncher: Processes arguments one-by-one (ordered specific to general)
    // =========================================================================

    // Case A: &mut Box<T>
    (@munch [ $obj:ident : &mut Box<$inner:ty> $(, $($rest:tt)*)? ]
            [ $($c_args:tt)* ] [ $($preamble:tt)* ] [ $($cl_params:tt)* ] [ $($cl_args:tt)* ]
            [ $($meta:tt)* ]) => {
        uerust_ffi!(@munch [ $($($rest)*)? ]
            [ $($c_args)* vptr: *mut std::ffi::c_void, ]
            [ $($preamble)* let $obj = unsafe { (vptr as *mut $inner).as_mut() }.unwrap(); ]
            [ $($cl_params)* ] // Captured implicitly by the closure environment
            [ $($cl_args)* ]
            [ $($meta)* ]);
    };

    // Case B: &Box<T>
    (@munch [ $obj:ident : &Box<$inner:ty> $(, $($rest:tt)*)? ]
            [ $($c_args:tt)* ] [ $($preamble:tt)* ] [ $($cl_params:tt)* ] [ $($cl_args:tt)* ]
            [ $($meta:tt)* ]) => {
        uerust_ffi!(@munch [ $($($rest)*)? ]
            [ $($c_args)* vptr: *const std::ffi::c_void, ]
            [ $($preamble)* let $obj = unsafe { (vptr as *const $inner).as_ref() }.unwrap(); ]
            [ $($cl_params)* ] // Captured implicitly by the closure environment
            [ $($cl_args)* ]
            [ $($meta)* ]);
    };

    // Case C: Box<T> (Owned value passing, typically for drop signatures)
    (@munch [ $obj:ident : Box<$inner:ty> $(, $($rest:tt)*)? ]
            [ $($c_args:tt)* ] [ $($preamble:tt)* ] [ $($cl_params:tt)* ] [ $($cl_args:tt)* ]
            [ $($meta:tt)* ]) => {
        uerust_ffi!(@munch [ $($($rest)*)? ]
            [ $($c_args)* vptr: *mut std::ffi::c_void, ]
            [ $($preamble)* let $obj = if vptr.is_null() { return; } else { unsafe { Box::from_raw(vptr as *mut $inner) } }; ]
            [ $($cl_params)* $obj: Box<$inner>, ]
            [ $($cl_args)* $obj, ]
            [ $($meta)* ]);
    };

    // Case D: &mut T (Standard mutable pointer reference)
    (@munch [ $name:ident : &mut $ty:ty $(, $($rest:tt)*)? ]
            [ $($c_args:tt)* ] [ $($preamble:tt)* ] [ $($cl_params:tt)* ] [ $($cl_args:tt)* ]
            [ $($meta:tt)* ]) => {
        uerust_ffi!(@munch [ $($($rest)*)? ]
            [ $($c_args)* $name: *mut $ty, ]
            [ $($preamble)* let $name = unsafe { ($name as *mut $ty).as_mut() }.unwrap(); ]
            [ $($cl_params)* $name: &mut $ty, ]
            [ $($cl_args)* $name, ]
            [ $($meta)* ]);
    };

    // Case E: &T (Standard constant pointer reference)
    (@munch [ $name:ident : &$ty:ty $(, $($rest:tt)*)? ]
            [ $($c_args:tt)* ] [ $($preamble:tt)* ] [ $($cl_params:tt)* ] [ $($cl_args:tt)* ]
            [ $($meta:tt)* ]) => {
        uerust_ffi!(@munch [ $($($rest)*)? ]
            [ $($c_args)* $name: *const $ty, ]
            [ $($preamble)* let $name = unsafe { ($name as *const $ty).as_ref() }.unwrap(); ]
            [ $($cl_params)* $name: &$ty, ]
            [ $($cl_args)* $name, ]
            [ $($meta)* ]);
    };

    // Case F: Plain T (Primitive data types like bool, f64 passed by value)
    (@munch [ $name:ident : $ty:ty $(, $($rest:tt)*)? ]
            [ $($c_args:tt)* ] [ $($preamble:tt)* ] [ $($cl_params:tt)* ] [ $($cl_args:tt)* ]
            [ $($meta:tt)* ]) => {
        uerust_ffi!(@munch [ $($($rest)*)? ]
            [ $($c_args)* $name: $ty, ]
            [ $($preamble)* ]
            [ $($cl_params)* $name: $ty, ]
            [ $($cl_args)* $name, ]
            [ $($meta)* ]);
    };

    // =========================================================================
    // Base Cases: Terminal emission rules when argument queue is empty `[]`
    // =========================================================================

    // Emit rule for normal functions
    (@munch [ ]
            [ $($c_args:tt)* ] [ $($preamble:tt)* ] [ $($cl_params:tt)* ] [ $($cl_args:tt)* ]
            [ @kind [ normal_ret ] @name [ $name:ident ] @body [ $body:block ] ]) => {
        pub extern "C" fn $name ( $($c_args)* ) {
            $($preamble)*
            $body
        }
    };

    // Emit rule for Box factory constructors
    (@munch [ ]
            [ $($c_args:tt)* ] [ $($preamble:tt)* ] [ $($cl_params:tt)* ] [ $($cl_args:tt)* ]
            [ @kind [ box_ret ] @name [ $name:ident ] @body [ $body:block ] ]) => {
        pub extern "C" fn $name ( $($c_args)* ) -> *mut std::ffi::c_void {
            $($preamble)*
            Box::into_raw(Box::new($body)) as *mut std::ffi::c_void
        }
    };

    // Emit rule for result functions
    (@munch [ ]
            [ $($c_args:tt)* ] [ $($preamble:tt)* ] [ $($cl_params:tt)* ] [ $($cl_args:tt)* ]
            [ @kind [ $ret:ty ] @name [ $name:ident ] @body [ $body:block ] ]) => {
        pub extern "C" fn $name ( $($c_args)* ) -> $ret {
            $($preamble)*
            $body
        }
    };
}
"#;

/// The opening of `UERustModuleImpl.h`, up to the members of `UERustApi`.
pub const HEADER_HEAD: &'static str = "// Auto-generated by uer — do not edit
#pragma once

#include \"CoreMinimal.h\"
#include \"Modules/ModuleManager.h\"
#include \"bindings.h\"

class UUERustPluginEngineSubsystem;

struct UERustApi {
private:
    UUERustPluginEngineSubsystem* subsystem;
public:
    UERustApi(UUERustPluginEngineSubsystem& s);
";

/// The close of `UERustApi` and the opening of `FUERustModuleImpl`, up to its protected members.
pub const HEADER_MIDDLE: &'static str = "};

class FUERustModuleImpl : public FDefaultGameModuleImpl
{
public:
    TOptional<UERustApi> RApi;
public:
    virtual ~FUERustModuleImpl() {}

    virtual void StartupModule() override;
    virtual void ShutdownModule() override;
protected:
";

/// The opening of `UERustModuleImpl.cpp`.
pub const CPP_HEAD: &'static str = "// Auto-generated by uer — do not edit
#include \"UERustModuleImpl.h\"
#include \"Modules/ModuleManager.h\"
#include \"Misc/CoreDelegates.h\"
#include \"Engine/Engine.h\"
#include \"UERustPluginEngineSubsystem.h\"

";

/// The head of `StartupModule`, up to the dispatch of calls from Rust.
pub const CPP_STARTUP: &'static str = "void FUERustModuleImpl::StartupModule()
{
    FDefaultGameModuleImpl::StartupModule();

    FCoreDelegates::OnPostEngineInit.AddLambda([this]() {
        if (GEngine) {
            if (UUERustPluginEngineSubsystem* Subsystem = GEngine->GetEngineSubsystem<UUERustPluginEngineSubsystem>()) {
                Subsystem->SetOnLoaded([this](UUERustPluginEngineSubsystem& subsystem, bool isReload) {
                    RApi.Emplace(UERustApi(subsystem));
                    if (RApi.IsSet()) {
                        RApi.GetValue().uerust_loaded(isReload);
                    }

                    subsystem.OnInvoke = [this](uint16_t method_id, Argument const* args, size_t num_args) {
";

/// The close of `StartupModule`, `ShutdownModule` and the constructor of `UERustApi`.
pub const CPP_AFTER_DISPATCH: &'static str = "                        return Return { .is_some = false };
                    };
                });
            }
        }
    });
}

void FUERustModuleImpl::ShutdownModule()
{
    FDefaultGameModuleImpl::ShutdownModule();
}

UERustApi::UERustApi(UUERustPluginEngineSubsystem& s) : subsystem(&s) {}

";

/// The definition of the logger that Rust calls, which closes every `UERustModuleImpl.cpp`.
pub const CPP_LOG: &'static str = "
void FUERustModuleImpl::uerust_log(uint8_t const* a0, uintptr_t a1, uint8_t lvl)
{
    auto data = (char const*)a0;
    auto len = (int)a1;
    if (lvl == 4) { // Error
        UE_LOG(LogTemp, Error, TEXT(\"%s\"), *FString::Printf(TEXT(\"%.*s\"), len, ANSI_TO_TCHAR(data)));
    } else if (lvl == 3) { // Warn
        UE_LOG(LogTemp, Warning, TEXT(\"%s\"), *FString::Printf(TEXT(\"%.*s\"), len, ANSI_TO_TCHAR(data)));
    } else if (lvl == 2) { // Info 
        UE_LOG(LogTemp, Display, TEXT(\"%s\"), *FString::Printf(TEXT(\"%.*s\"), len, ANSI_TO_TCHAR(data)));
    } else if (lvl == 1) { // Debug
        UE_LOG(LogTemp, Log, TEXT(\"%s\"), *FString::Printf(TEXT(\"%.*s\"), len, ANSI_TO_TCHAR(data)));
    } else { // Trace
        UE_LOG(LogTemp, Verbose, TEXT(\"%s\"), *FString::Printf(TEXT(\"%.*s\"), len, ANSI_TO_TCHAR(data)));
    }
}

";

/// The `src/lib.rs` that a new project starts with.
pub const LIB_RS: &'static str = "fn uerust_loaded(is_reload: bool) {
    logger::init();
    log::warn!(\"module was {}.\", if is_reload { \"reloaded\" } else { \"loaded\" });
}
";

/// The `Cargo.toml` of a new project, up to its package name.
pub const CARGO_TOML_HEAD: &'static str = "[package]
name = \"";

/// The `Cargo.toml` of a new project, after its package name.
pub const CARGO_TOML_TAIL: &'static str = "\"
version = \"0.1.0\"
edition = \"2021\"

[lib]
crate-type = [\"cdylib\"]

[dependencies]
";

/// The `api.json` that a new project starts with.
pub const DEFAULT_API_JSON: &'static str = r#"{
    "$schema": "https://raw.githubusercontent.com/kyunghoon/uer/refs/heads/main/schema.json",
    "cfunc": {},
    "rfunc": {}
}"#;

}

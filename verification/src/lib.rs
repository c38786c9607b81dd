//! The library behind `uer`, the bridge between Rust and Unreal Engine: it
//! resolves an API description into the functions of the bridge, writes the
//! Rust and C++ sources that carry calls across it, and plans the build that
//! puts the Rust library where the engine loads it.
pub mod api;
pub mod build_plan;
pub mod command;
pub mod cpp_gen;
pub mod gen_laws;
pub mod generate;
pub mod rust_gen;
pub mod templates;
pub mod text;
pub mod types;

pub use api::{ApiSchema, Arg, FuncEntry, FuncSpec, process_api_schema};
pub use build_plan::{BuildPlan, ModuleParams, PluginParams, TargetOS, Variant, plan_build};
pub use command::{BuildRequest, Command, parse_command};
pub use generate::{GeneratedFiles, generate_files};
pub use types::TypeSpec;

# uer

The library behind `uer`, a command-line bridge between Rust and Unreal Engine,
written in Verus with its behaviour stated in contracts and proved.

- `src/types.rs`: the type names an `api.json` may use and how each is spelled
  in C++, Rust, the `uerust_ffi!` macro and the argument union.
- `src/api.rs`: the API description, its resolution into the two function
  lists (ordered by name, with the logger and the load hook added) and the laws
  of that order.
- `src/rust_gen.rs`, `src/cpp_gen.rs`: the text of `bindings.rs`,
  `UERustModuleImpl.h` and `UERustModuleImpl.cpp`, and the law that both sides
  number the functions alike.
- `src/generate.rs`: everything `gen` writes, from one description.
- `src/command.rs`: the command line (`gen`, `build`, `android` and their
  options) and what each command takes.
- `src/build_plan.rs`: the plan of a build: cargo arguments, library name,
  where the library is copied.
- `src/text.rs`, `src/templates.rs`: string helpers and the fixed text.
- `app/`: the command line, the file system and shell work, and the JSON form
  of the description (serde).

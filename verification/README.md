# swift_bridge_ir

The part of a Rust to Swift bridge generator that deals with `Result` and with the
Swift functions through which Swift calls Rust, verified with Verus.

- `bridgeable_result`, `bridgeable_result_rust`: `BuiltInResult`, and the C, Swift and
  Rust source for results that cross the bridge.
- `generate_function_swift_calls_rust`: `gen_func_swift_calls_rust`, the Swift
  function for a Rust function (`extern_fn`).
- `bridged_type`: `BridgeableType`, what a type tells about itself. `built_in` holds
  `BridgedType`, a result or another type; `std_lib_type` holds numbers, `bool` and `()`;
  `type_description` holds a type that is described by plain values.
- `declarations`: the types that a bridge module declares.
- `tokens`: what a `proc_macro2::TokenStream` holds. The calls into `proc_macro2`,
  `quote` and `syn` stand here.
- `text`: trimming, splitting at brackets and lines.
- `result_laws`, `function_laws`: what holds across functions and languages.

`app/` makes the Swift function for a signature as `syn` parses it.

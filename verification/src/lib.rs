use vstd::prelude::*;

pub mod bridgeable_result;
pub mod bridgeable_result_rust;
pub mod bridged_type;
pub mod built_in;
pub mod declarations;
pub mod extern_fn;
pub mod function_laws;
pub mod function_texts;
pub mod generate_function_swift_calls_rust;
pub mod result_laws;
pub mod result_texts;
pub mod std_lib_type;
pub mod text;
pub mod tokens;
pub mod type_description;
pub mod type_laws;

verus! {

/// Every name that the bridge makes up starts with this.
pub const SWIFT_BRIDGE_PREFIX: &'static str = "__swift_bridge__";

} // verus!

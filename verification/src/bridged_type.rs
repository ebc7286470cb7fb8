//! What a type tells about itself so that it can cross the bridge between Rust and
//! Swift.
use proc_macro2::{Span, TokenStream};
use syn::Path;
use vstd::prelude::*;

use crate::declarations::{HostLang, TypeDeclarations};
use crate::tokens;
use crate::tokens::Token;

verus! {

/// Where in a signature a type stands.
#[derive(Debug, Clone, Copy, PartialEq, Eq, Structural)]
pub enum TypePosition {
    /// The parameter with this index, of a function in this language.
    FnArg(HostLang, usize),
    /// The return type of a function in this language.
    FnReturn(HostLang),
    SharedStructField,
    /// What an `async` Rust function hands to the callback that Swift gave it.
    SwiftCallsRustAsyncOnCompleteReturnTy,
    /// What an initializer that can throw gets back, from a function in this
    /// language.
    ThrowingInit(HostLang),
}

/// How the value of a type is written that has one value only.
#[derive(Debug)]
pub struct OnlyEncoding {
    pub swift: String,
}

/// A C type definition, and those that it needs.
#[derive(Debug)]
pub struct CFfiStruct {
    pub c_ffi_type: String,
    pub fields: Vec<CFfiStruct>,
}

/// A C type definition as text, and those that it needs.
pub struct CDefinition {
    pub text: Seq<char>,
    pub fields: Seq<CDefinition>,
}

/// The text of a definition and of those that it needs.
pub open spec fn c_definition(c: CFfiStruct) -> CDefinition
    decreases c,
{
    CDefinition {
        text: c.c_ffi_type@,
        fields: Seq::new(
            c.fields@.len(),
            |i: int|
                if 0 <= i < c.fields@.len() {
                    c_definition(c.fields@[i])
                } else {
                    arbitrary()
                },
        ),
    }
}

/// What a type may have or lack.
#[derive(Debug, Clone, Copy, PartialEq, Eq, Structural)]
pub enum Aspect {
    /// A name that can be part of an identifier.
    Name,
    /// A type in C.
    CType,
    /// A Rust type in which a value crosses the bridge.
    FfiType,
    /// The definitions that it needs in Rust.
    RustDefinitions,
    /// The definition that it needs in C.
    CDefinition,
    /// A Swift type in this position.
    SwiftType(TypePosition),
    /// A way from a Rust value over the bridge.
    RustToFfi,
    /// A way over the bridge to a Swift value in this position.
    FfiToSwift(TypePosition),
    /// A way from a Swift value in this position over the bridge.
    SwiftToFfi(TypePosition),
    /// A way from a `Result` that crossed the bridge as a flag and a pointer to the
    /// value in it.
    FfiResultToRust,
}

/// A type that can cross the bridge.
///
/// Each method answers from the type itself and its arguments alone; the function
/// named after the method, with `spec_` before it, is the answer. A method that asks
/// for an aspect that the type may lack is called where the type has it.
pub trait BridgeableType {
    /// Whether the type has this aspect.
    spec fn has(&self, aspect: Aspect, types: &TypeDeclarations) -> bool;

    /// Whether the type has this aspect.
    fn has_aspect(&self, aspect: Aspect, types: &TypeDeclarations) -> (r: bool)
        ensures
            r == self.has(aspect, types),
    ;

    spec fn spec_is_null(&self) -> bool;

    /// Whether this is `()`.
    fn is_null(&self) -> (r: bool)
        ensures
            r == self.spec_is_null(),
    ;

    spec fn spec_can_be_encoded_with_zero_bytes(&self) -> bool;

    /// Whether a value of the type takes up no memory.
    fn can_be_encoded_with_zero_bytes(&self) -> (r: bool)
        ensures
            r == self.spec_can_be_encoded_with_zero_bytes(),
    ;

    spec fn spec_is_passed_via_pointer(&self) -> bool;

    /// Whether a value of the type crosses the bridge as a pointer.
    fn is_passed_via_pointer(&self) -> (r: bool)
        ensures
            r == self.spec_is_passed_via_pointer(),
    ;

    spec fn spec_only_encoding(&self) -> Option<Seq<char>>;

    /// How the only value is written, where the type has one value only.
    fn only_encoding(&self) -> (r: Option<OnlyEncoding>)
        ensures
            match (r, self.spec_only_encoding()) {
                (Some(encoding), Some(swift)) => encoding.swift@ == swift,
                (None, None) => true,
                _ => false,
            },
    ;

    spec fn spec_to_rust_type_path(&self, types: &TypeDeclarations) -> Seq<Token>;

    /// The type as Rust source.
    fn to_rust_type_path(&self, types: &TypeDeclarations) -> (r: TokenStream)
        ensures
            tokens::tokens(r) == self.spec_to_rust_type_path(types),
    ;

    spec fn spec_to_swift_type(
        &self,
        type_pos: TypePosition,
        types: &TypeDeclarations,
        swift_bridge_path: &Path,
    ) -> Seq<char>;

    /// The type as Swift source.
    fn to_swift_type(
        &self,
        type_pos: TypePosition,
        types: &TypeDeclarations,
        swift_bridge_path: &Path,
    ) -> (r: String)
        requires
            self.has(Aspect::SwiftType(type_pos), types),
        ensures
            r@ == self.spec_to_swift_type(type_pos, types, swift_bridge_path),
    ;

    spec fn spec_to_c_type(&self, types: &TypeDeclarations) -> Seq<char>;

    /// The type as C source.
    fn to_c_type(&self, types: &TypeDeclarations) -> (r: String)
        requires
            self.has(Aspect::CType, types),
        ensures
            r@ == self.spec_to_c_type(types),
    ;

    spec fn spec_to_ffi_compatible_rust_type(
        &self,
        swift_bridge_path: &Path,
        types: &TypeDeclarations,
    ) -> Seq<Token>;

    /// The Rust type in which a value crosses the bridge.
    fn to_ffi_compatible_rust_type(
        &self,
        swift_bridge_path: &Path,
        types: &TypeDeclarations,
    ) -> (r: TokenStream)
        requires
            self.has(Aspect::FfiType, types),
        ensures
            tokens::tokens(r) == self.spec_to_ffi_compatible_rust_type(swift_bridge_path, types),
    ;

    spec fn spec_convert_rust_expression_to_ffi_type(
        &self,
        expression: Seq<Token>,
        swift_bridge_path: &Path,
        types: &TypeDeclarations,
        span: Span,
    ) -> Seq<Token>;

    /// Rust source that turns a Rust value into one that can cross the bridge.
    fn convert_rust_expression_to_ffi_type(
        &self,
        expression: &TokenStream,
        swift_bridge_path: &Path,
        types: &TypeDeclarations,
        span: Span,
    ) -> (r: TokenStream)
        requires
            self.has(Aspect::RustToFfi, types),
        ensures
            tokens::tokens(r) == self.spec_convert_rust_expression_to_ffi_type(
                tokens::tokens(*expression),
                swift_bridge_path,
                types,
                span,
            ),
    ;

    spec fn spec_convert_ffi_result_ok_value_to_rust_value(
        &self,
        expression: Seq<Token>,
        swift_bridge_path: &Path,
        types: &TypeDeclarations,
    ) -> Seq<Token>;

    /// Rust source for the value of a `Result` that crossed the bridge as `Ok`.
    fn convert_ffi_result_ok_value_to_rust_value(
        &self,
        expression: &TokenStream,
        swift_bridge_path: &Path,
        types: &TypeDeclarations,
    ) -> (r: TokenStream)
        requires
            self.has(Aspect::FfiResultToRust, types),
        ensures
            tokens::tokens(r) == self.spec_convert_ffi_result_ok_value_to_rust_value(
                tokens::tokens(*expression),
                swift_bridge_path,
                types,
            ),
    ;

    spec fn spec_convert_ffi_result_err_value_to_rust_value(
        &self,
        expression: Seq<Token>,
        swift_bridge_path: &Path,
        types: &TypeDeclarations,
    ) -> Seq<Token>;

    /// Rust source for the value of a `Result` that crossed the bridge as `Err`.
    fn convert_ffi_result_err_value_to_rust_value(
        &self,
        expression: &TokenStream,
        swift_bridge_path: &Path,
        types: &TypeDeclarations,
    ) -> (r: TokenStream)
        requires
            self.has(Aspect::FfiResultToRust, types),
        ensures
            tokens::tokens(r) == self.spec_convert_ffi_result_err_value_to_rust_value(
                tokens::tokens(*expression),
                swift_bridge_path,
                types,
            ),
    ;

    spec fn spec_convert_ffi_expression_to_swift_type(
        &self,
        expression: Seq<char>,
        type_pos: TypePosition,
        types: &TypeDeclarations,
        swift_bridge_path: &Path,
    ) -> Seq<char>;

    /// Swift source that turns a value that crossed the bridge into a Swift value.
    fn convert_ffi_expression_to_swift_type(
        &self,
        expression: &str,
        type_pos: TypePosition,
        types: &TypeDeclarations,
        swift_bridge_path: &Path,
    ) -> (r: String)
        requires
            self.has(Aspect::FfiToSwift(type_pos), types),
        ensures
            r@ == self.spec_convert_ffi_expression_to_swift_type(
                expression@,
                type_pos,
                types,
                swift_bridge_path,
            ),
    ;

    spec fn spec_convert_swift_expression_to_ffi_type(
        &self,
        expression: Seq<char>,
        types: &TypeDeclarations,
        type_pos: TypePosition,
    ) -> Seq<char>;

    /// Swift source that turns a Swift value into one that can cross the bridge.
    fn convert_swift_expression_to_ffi_type(
        &self,
        expression: &str,
        types: &TypeDeclarations,
        type_pos: TypePosition,
    ) -> (r: String)
        requires
            self.has(Aspect::SwiftToFfi(type_pos), types),
        ensures
            r@ == self.spec_convert_swift_expression_to_ffi_type(expression@, types, type_pos),
    ;

    spec fn spec_to_alpha_numeric_underscore_name(&self, types: &TypeDeclarations) -> Seq<char>;

    /// A name for the type that can be part of an identifier.
    fn to_alpha_numeric_underscore_name(&self, types: &TypeDeclarations) -> (r: String)
        requires
            self.has(Aspect::Name, types),
        ensures
            r@ == self.spec_to_alpha_numeric_underscore_name(types),
    ;

    spec fn spec_generate_custom_rust_ffi_types(
        &self,
        swift_bridge_path: &Path,
        types: &TypeDeclarations,
    ) -> Option<Seq<Seq<Token>>>;

    /// The definitions of the Rust types that the type needs to cross the bridge.
    fn generate_custom_rust_ffi_types(
        &self,
        swift_bridge_path: &Path,
        types: &TypeDeclarations,
    ) -> (r: Option<Vec<TokenStream>>)
        requires
            self.has(Aspect::RustDefinitions, types),
        ensures
            match (r, self.spec_generate_custom_rust_ffi_types(swift_bridge_path, types)) {
                (Some(streams), Some(texts)) => tokens::token_seqs(streams@) == texts,
                (None, None) => true,
                _ => false,
            },
    ;

    spec fn spec_generate_custom_c_ffi_types(&self, types: &TypeDeclarations) -> Option<
        CDefinition,
    >;

    /// The definition of the C type in which a value crosses the bridge, where the
    /// type needs one of its own.
    fn generate_custom_c_ffi_types(&self, types: &TypeDeclarations) -> (r: Option<CFfiStruct>)
        requires
            self.has(Aspect::CDefinition, types),
        ensures
            match (r, self.spec_generate_custom_c_ffi_types(types)) {
                (Some(c), Some(definition)) => c_definition(c) == definition,
                (None, None) => true,
                _ => false,
            },
    ;
}

/// A type that is found by its name in Rust source.
///
/// The view of a type is what its name says of it.
pub trait NamedType: BridgeableType + View + Sized {
    spec fn spec_new_with_str(string: Seq<char>, types: &TypeDeclarations) -> Option<Self::V>;

    /// The type of the given name, which is written as a token stream prints it.
    fn new_with_str(string: &str, types: &TypeDeclarations) -> (r: Option<Self>)
        ensures
            match (r, Self::spec_new_with_str(string@, types)) {
                (Some(ty), Some(view)) => ty@ == view,
                (None, None) => true,
                _ => false,
            },
    ;
}

} // verus!

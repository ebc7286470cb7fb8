//! The types that the bridge knows by themselves, without a declaration.
use proc_macro2::{Span, TokenStream};
use syn::Path;
use vstd::prelude::*;

use crate::bridgeable_result::BuiltInResult;
use crate::bridged_type::{
    Aspect, BridgeableType, CDefinition, CFfiStruct, NamedType, OnlyEncoding, TypePosition,
};
use crate::declarations::TypeDeclarations;
use crate::text;
use crate::tokens::Token;

verus! {

/// A type that the bridge knows by itself, without a declaration.
///
/// Results stand inside of results as deep as the type argument says: a
/// `BridgedType<BridgedType<T>>` is a result of results of `T`, or less.
#[derive(Debug)]
pub enum BridgedType<T: BridgeableType> {
    Result(BuiltInResult<T, T>),
    /// Any other type.
    Other(T),
}

/// What the name of a type says of it, over what those of other types say of them.
pub enum BridgedTypeView<V> {
    Result(V, V),
    Other(V),
}

impl<T: NamedType> View for BridgedType<T> {
    type V = BridgedTypeView<T::V>;

    open spec fn view(&self) -> BridgedTypeView<T::V> {
        match self {
            BridgedType::Result(result) => BridgedTypeView::Result(
                result.ok_ty@,
                result.err_ty@,
            ),
            BridgedType::Other(ty) => BridgedTypeView::Other(ty@),
        }
    }
}

impl<T: NamedType> NamedType for BridgedType<T> {
    open spec fn spec_new_with_str(string: Seq<char>, types: &TypeDeclarations) -> Option<
        BridgedTypeView<T::V>,
    > {
        if "Result < "@.is_prefix_of(string) {
            match BuiltInResult::<T, T>::spec_from_str_tokens(string, types) {
                Some((ok, err)) => Some(BridgedTypeView::Result(ok, err)),
                None => None,
            }
        } else {
            match T::spec_new_with_str(string, types) {
                Some(view) => Some(BridgedTypeView::Other(view)),
                None => None,
            }
        }
    }

    fn new_with_str(string: &str, types: &TypeDeclarations) -> (r: Option<Self>) {
        if text::starts_with(string, "Result < ") {
            match BuiltInResult::from_str_tokens(string, types) {
                Some(result) => Some(BridgedType::Result(result)),
                None => None,
            }
        } else {
            match T::new_with_str(string, types) {
                Some(ty) => Some(BridgedType::Other(ty)),
                None => None,
            }
        }
    }
}

/// A result has at least a tag or a pointer, and a tagged union is not passed via a
/// pointer. It has no name for an identifier, and does not stand behind the pointer
/// of another result.
impl<T: BridgeableType> BridgeableType for BridgedType<T> {
    open spec fn has(&self, aspect: Aspect, types: &TypeDeclarations) -> bool {
        match self {
            BridgedType::Result(result) => result.has(aspect, types),
            BridgedType::Other(ty) => ty.has(aspect, types),
        }
    }

    fn has_aspect(&self, aspect: Aspect, types: &TypeDeclarations) -> (r: bool) {
        match self {
            BridgedType::Result(result) => result.has_aspect(aspect, types),
            BridgedType::Other(ty) => ty.has_aspect(aspect, types),
        }
    }

    open spec fn spec_is_null(&self) -> bool {
        match self {
            BridgedType::Result(_) => false,
            BridgedType::Other(ty) => ty.spec_is_null(),
        }
    }

    fn is_null(&self) -> (r: bool) {
        match self {
            BridgedType::Result(_) => false,
            BridgedType::Other(ty) => ty.is_null(),
        }
    }

    open spec fn spec_can_be_encoded_with_zero_bytes(&self) -> bool {
        match self {
            BridgedType::Result(_) => false,
            BridgedType::Other(ty) => ty.spec_can_be_encoded_with_zero_bytes(),
        }
    }

    fn can_be_encoded_with_zero_bytes(&self) -> (r: bool) {
        match self {
            BridgedType::Result(_) => false,
            BridgedType::Other(ty) => ty.can_be_encoded_with_zero_bytes(),
        }
    }

    open spec fn spec_is_passed_via_pointer(&self) -> bool {
        match self {
            BridgedType::Result(_) => false,
            BridgedType::Other(ty) => ty.spec_is_passed_via_pointer(),
        }
    }

    fn is_passed_via_pointer(&self) -> (r: bool) {
        match self {
            BridgedType::Result(_) => false,
            BridgedType::Other(ty) => ty.is_passed_via_pointer(),
        }
    }

    open spec fn spec_only_encoding(&self) -> Option<Seq<char>> {
        match self {
            BridgedType::Result(_) => None,
            BridgedType::Other(ty) => ty.spec_only_encoding(),
        }
    }

    fn only_encoding(&self) -> (r: Option<OnlyEncoding>) {
        match self {
            BridgedType::Result(_) => None,
            BridgedType::Other(ty) => ty.only_encoding(),
        }
    }

    open spec fn spec_to_rust_type_path(&self, types: &TypeDeclarations) -> Seq<Token> {
        match self {
            BridgedType::Result(result) => result.spec_to_rust_type_path(types),
            BridgedType::Other(ty) => ty.spec_to_rust_type_path(types),
        }
    }

    fn to_rust_type_path(&self, types: &TypeDeclarations) -> (r: TokenStream) {
        match self {
            BridgedType::Result(result) => result.to_rust_type_path(types),
            BridgedType::Other(ty) => ty.to_rust_type_path(types),
        }
    }

    open spec fn spec_to_swift_type(
        &self,
        type_pos: TypePosition,
        types: &TypeDeclarations,
        swift_bridge_path: &Path,
    ) -> Seq<char> {
        match self {
            BridgedType::Result(result) => result.spec_to_swift_type(
                type_pos,
                types,
                swift_bridge_path,
            ),
            BridgedType::Other(ty) => ty.spec_to_swift_type(type_pos, types, swift_bridge_path),
        }
    }

    fn to_swift_type(
        &self,
        type_pos: TypePosition,
        types: &TypeDeclarations,
        swift_bridge_path: &Path,
    ) -> (r: String) {
        match self {
            BridgedType::Result(result) => result.to_swift_type(type_pos, types, swift_bridge_path),
            BridgedType::Other(ty) => ty.to_swift_type(type_pos, types, swift_bridge_path),
        }
    }

    open spec fn spec_to_c_type(&self, types: &TypeDeclarations) -> Seq<char> {
        match self {
            BridgedType::Result(result) => result.spec_to_c(types),
            BridgedType::Other(ty) => ty.spec_to_c_type(types),
        }
    }

    fn to_c_type(&self, types: &TypeDeclarations) -> (r: String) {
        match self {
            BridgedType::Result(result) => result.to_c(types),
            BridgedType::Other(ty) => ty.to_c_type(types),
        }
    }

    open spec fn spec_to_ffi_compatible_rust_type(
        &self,
        swift_bridge_path: &Path,
        types: &TypeDeclarations,
    ) -> Seq<Token> {
        match self {
            BridgedType::Result(result) => result.spec_to_ffi_compatible_rust_type(
                swift_bridge_path,
                types,
            ),
            BridgedType::Other(ty) => ty.spec_to_ffi_compatible_rust_type(swift_bridge_path, types),
        }
    }

    fn to_ffi_compatible_rust_type(
        &self,
        swift_bridge_path: &Path,
        types: &TypeDeclarations,
    ) -> (r: TokenStream) {
        match self {
            BridgedType::Result(result) => result.to_ffi_compatible_rust_type(
                swift_bridge_path,
                types,
            ),
            BridgedType::Other(ty) => ty.to_ffi_compatible_rust_type(swift_bridge_path, types),
        }
    }

    open spec fn spec_convert_rust_expression_to_ffi_type(
        &self,
        expression: Seq<Token>,
        swift_bridge_path: &Path,
        types: &TypeDeclarations,
        span: Span,
    ) -> Seq<Token> {
        match self {
            BridgedType::Result(result) => result.spec_convert_rust_expression_to_ffi_type(
                expression,
                swift_bridge_path,
                types,
                span,
            ),
            BridgedType::Other(ty) => ty.spec_convert_rust_expression_to_ffi_type(
                expression,
                swift_bridge_path,
                types,
                span,
            ),
        }
    }

    fn convert_rust_expression_to_ffi_type(
        &self,
        expression: &TokenStream,
        swift_bridge_path: &Path,
        types: &TypeDeclarations,
        span: Span,
    ) -> (r: TokenStream) {
        match self {
            BridgedType::Result(result) => result.convert_rust_expression_to_ffi_type(
                expression,
                swift_bridge_path,
                types,
                span,
            ),
            BridgedType::Other(ty) => ty.convert_rust_expression_to_ffi_type(
                expression,
                swift_bridge_path,
                types,
                span,
            ),
        }
    }

    open spec fn spec_convert_ffi_result_ok_value_to_rust_value(
        &self,
        expression: Seq<Token>,
        swift_bridge_path: &Path,
        types: &TypeDeclarations,
    ) -> Seq<Token> {
        match self {
            BridgedType::Result(_) => arbitrary(),
            BridgedType::Other(ty) => ty.spec_convert_ffi_result_ok_value_to_rust_value(
                expression,
                swift_bridge_path,
                types,
            ),
        }
    }

    fn convert_ffi_result_ok_value_to_rust_value(
        &self,
        expression: &TokenStream,
        swift_bridge_path: &Path,
        types: &TypeDeclarations,
    ) -> (r: TokenStream) {
        match self {
            BridgedType::Result(_) => {
                assert(false);
                TokenStream::new()
            },
            BridgedType::Other(ty) => ty.convert_ffi_result_ok_value_to_rust_value(
                expression,
                swift_bridge_path,
                types,
            ),
        }
    }

    open spec fn spec_convert_ffi_result_err_value_to_rust_value(
        &self,
        expression: Seq<Token>,
        swift_bridge_path: &Path,
        types: &TypeDeclarations,
    ) -> Seq<Token> {
        match self {
            BridgedType::Result(_) => arbitrary(),
            BridgedType::Other(ty) => ty.spec_convert_ffi_result_err_value_to_rust_value(
                expression,
                swift_bridge_path,
                types,
            ),
        }
    }

    fn convert_ffi_result_err_value_to_rust_value(
        &self,
        expression: &TokenStream,
        swift_bridge_path: &Path,
        types: &TypeDeclarations,
    ) -> (r: TokenStream) {
        match self {
            BridgedType::Result(_) => {
                assert(false);
                TokenStream::new()
            },
            BridgedType::Other(ty) => ty.convert_ffi_result_err_value_to_rust_value(
                expression,
                swift_bridge_path,
                types,
            ),
        }
    }

    open spec fn spec_convert_ffi_expression_to_swift_type(
        &self,
        expression: Seq<char>,
        type_pos: TypePosition,
        types: &TypeDeclarations,
        swift_bridge_path: &Path,
    ) -> Seq<char> {
        match self {
            BridgedType::Result(result) => result.spec_convert_ffi_value_to_swift_value(
                expression,
                type_pos,
                types,
                swift_bridge_path,
            ),
            BridgedType::Other(ty) => ty.spec_convert_ffi_expression_to_swift_type(
                expression,
                type_pos,
                types,
                swift_bridge_path,
            ),
        }
    }

    fn convert_ffi_expression_to_swift_type(
        &self,
        expression: &str,
        type_pos: TypePosition,
        types: &TypeDeclarations,
        swift_bridge_path: &Path,
    ) -> (r: String) {
        match self {
            BridgedType::Result(result) => result.convert_ffi_value_to_swift_value(
                expression,
                type_pos,
                types,
                swift_bridge_path,
            ),
            BridgedType::Other(ty) => ty.convert_ffi_expression_to_swift_type(
                expression,
                type_pos,
                types,
                swift_bridge_path,
            ),
        }
    }

    open spec fn spec_convert_swift_expression_to_ffi_type(
        &self,
        expression: Seq<char>,
        types: &TypeDeclarations,
        type_pos: TypePosition,
    ) -> Seq<char> {
        match self {
            BridgedType::Result(result) => result.spec_convert_swift_expression_to_ffi_compatible(
                expression,
                types,
                type_pos,
            ),
            BridgedType::Other(ty) => ty.spec_convert_swift_expression_to_ffi_type(
                expression,
                types,
                type_pos,
            ),
        }
    }

    fn convert_swift_expression_to_ffi_type(
        &self,
        expression: &str,
        types: &TypeDeclarations,
        type_pos: TypePosition,
    ) -> (r: String) {
        match self {
            BridgedType::Result(result) => result.convert_swift_expression_to_ffi_compatible(
                expression,
                types,
                type_pos,
            ),
            BridgedType::Other(ty) => ty.convert_swift_expression_to_ffi_type(
                expression,
                types,
                type_pos,
            ),
        }
    }

    open spec fn spec_to_alpha_numeric_underscore_name(
        &self,
        types: &TypeDeclarations,
    ) -> Seq<char> {
        match self {
            BridgedType::Result(_) => arbitrary(),
            BridgedType::Other(ty) => ty.spec_to_alpha_numeric_underscore_name(types),
        }
    }

    fn to_alpha_numeric_underscore_name(&self, types: &TypeDeclarations) -> (r: String) {
        match self {
            BridgedType::Result(_) => {
                assert(false);
                String::new()
            },
            BridgedType::Other(ty) => ty.to_alpha_numeric_underscore_name(types),
        }
    }

    open spec fn spec_generate_custom_rust_ffi_types(
        &self,
        swift_bridge_path: &Path,
        types: &TypeDeclarations,
    ) -> Option<Seq<Seq<Token>>> {
        match self {
            BridgedType::Result(result) => result.spec_generate_custom_rust_ffi_types(
                swift_bridge_path,
                types,
            ),
            BridgedType::Other(ty) => ty.spec_generate_custom_rust_ffi_types(
                swift_bridge_path,
                types,
            ),
        }
    }

    fn generate_custom_rust_ffi_types(
        &self,
        swift_bridge_path: &Path,
        types: &TypeDeclarations,
    ) -> (r: Option<Vec<TokenStream>>) {
        match self {
            BridgedType::Result(result) => result.generate_custom_rust_ffi_types(
                swift_bridge_path,
                types,
            ),
            BridgedType::Other(ty) => ty.generate_custom_rust_ffi_types(swift_bridge_path, types),
        }
    }

    open spec fn spec_generate_custom_c_ffi_types(&self, types: &TypeDeclarations) -> Option<
        CDefinition,
    > {
        match self {
            BridgedType::Result(result) => result.spec_generate_custom_c_ffi_types(types),
            BridgedType::Other(ty) => ty.spec_generate_custom_c_ffi_types(types),
        }
    }

    fn generate_custom_c_ffi_types(&self, types: &TypeDeclarations) -> (r: Option<CFfiStruct>) {
        match self {
            BridgedType::Result(result) => result.generate_custom_c_ffi_types(types),
            BridgedType::Other(ty) => ty.generate_custom_c_ffi_types(types),
        }
    }
}

} // verus!

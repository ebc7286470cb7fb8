//! A bridgeable type that is described by plain values.
use proc_macro2::{Span, TokenStream};
use syn::Path;
use vstd::prelude::*;

use crate::bridged_type::{
    Aspect, BridgeableType, CDefinition, CFfiStruct, OnlyEncoding, TypePosition,
};
use crate::declarations::TypeDeclarations;
use crate::text;
use crate::tokens;
use crate::tokens::Token;

verus! {

/// `parts` with `between` between every two of them.
pub open spec fn joined<A>(parts: Seq<Seq<A>>, between: Seq<A>) -> Seq<A>
    decreases parts.len(),
{
    if parts.len() == 0 {
        Seq::empty()
    } else if parts.len() == 1 {
        parts[0]
    } else {
        joined(parts.drop_last(), between) + between + parts.last()
    }
}

/// A template with a gap keeps the expression.
pub proof fn law_filled_template_keeps_expression(parts: Seq<Seq<char>>, expression: Seq<char>)
    requires
        parts.len() >= 2,
    ensures
        text::occurs(expression, joined(parts, expression)),
{
    assert(joined(parts, expression) == joined(parts.drop_last(), expression) + expression
        + parts.last());
}

/// Source text with gaps that an expression is put in.
#[derive(Debug)]
pub struct TextTemplate {
    /// What stands before, between and behind the gaps.
    pub parts: Vec<String>,
}

impl TextTemplate {
    pub open spec fn texts(&self) -> Seq<Seq<char>> {
        Seq::new(self.parts@.len(), |i: int| self.parts@[i]@)
    }

    /// The template with `expression` in each gap.
    pub fn fill(&self, expression: &str) -> (r: String)
        ensures
            r@ == joined(self.texts(), expression@),
    {
        let mut r = String::new();
        let mut i: usize = 0;
        while i < self.parts.len()
            invariant
                i <= self.parts@.len(),
                r@ == joined(self.texts().take(i as int), expression@),
            decreases self.parts@.len() - i,
        {
            if i > 0 {
                r.append(expression);
            }
            r.append(&self.parts[i]);
            assert(self.texts().take(i + 1).drop_last() =~= self.texts().take(i as int));
            i = i + 1;
        }
        assert(self.texts().take(i as int) =~= self.texts());
        r
    }
}

/// Rust source with gaps that an expression is put in.
#[derive(Debug)]
pub struct TokenTemplate {
    /// What stands before, between and behind the gaps.
    pub parts: Vec<TokenStream>,
}

impl TokenTemplate {
    /// The template with `expression` in each gap.
    pub fn fill(&self, expression: &TokenStream) -> (r: TokenStream)
        ensures
            tokens::tokens(r) == joined(
                tokens::token_seqs(self.parts@),
                tokens::tokens(*expression),
            ),
    {
        let mut r = TokenStream::new();
        let ghost parts = tokens::token_seqs(self.parts@);
        let mut i: usize = 0;
        while i < self.parts.len()
            invariant
                i <= self.parts@.len(),
                parts == tokens::token_seqs(self.parts@),
                tokens::tokens(r) == joined(parts.take(i as int), tokens::tokens(*expression)),
            decreases self.parts@.len() - i,
        {
            if i > 0 {
                tokens::push_tokens(&mut r, expression);
            }
            tokens::push_tokens(&mut r, &self.parts[i]);
            assert(parts.take(i + 1).drop_last() =~= parts.take(i as int));
            i = i + 1;
        }
        assert(parts.take(i as int) =~= parts);
        r
    }
}

/// A type that crosses the bridge in the same way wherever it stands.
#[derive(Debug)]
pub struct TypeDescription {
    /// The name of the type, as it can be part of an identifier.
    pub name: String,
    /// The type as Rust source.
    pub rust_type: TokenStream,
    /// The type as Swift source.
    pub swift_type: String,
    /// The type as C source.
    pub c_type: String,
    /// The Rust type in which a value crosses the bridge.
    pub ffi_type: TokenStream,
    /// Whether the type is `()`.
    pub is_null: bool,
    /// Whether a value crosses the bridge as a pointer.
    pub is_passed_via_pointer: bool,
    /// The only value of the type as Swift source, where there is only one.
    pub only_value: Option<String>,
    /// From a Rust value to one that crosses the bridge.
    pub rust_to_ffi: TokenTemplate,
    /// From a `Result` that crossed the bridge to the value of `Ok`.
    pub ffi_ok_to_rust: TokenTemplate,
    /// From a `Result` that crossed the bridge to the value of `Err`.
    pub ffi_err_to_rust: TokenTemplate,
    /// From a value that crossed the bridge to a Swift value.
    pub ffi_to_swift: TextTemplate,
    /// From a Swift value to one that crosses the bridge.
    pub swift_to_ffi: TextTemplate,
    /// The definitions of Rust types that the type needs.
    pub rust_definitions: Vec<TokenStream>,
    /// The definition of the C type, where the type needs one of its own.
    pub c_definition: Option<String>,
}

impl BridgeableType for TypeDescription {
    open spec fn has(&self, aspect: Aspect, types: &TypeDeclarations) -> bool {
        true
    }

    fn has_aspect(&self, aspect: Aspect, types: &TypeDeclarations) -> (r: bool) {
        true
    }

    open spec fn spec_is_null(&self) -> bool {
        self.is_null
    }

    fn is_null(&self) -> (r: bool) {
        self.is_null
    }

    open spec fn spec_can_be_encoded_with_zero_bytes(&self) -> bool {
        self.only_value is Some
    }

    fn can_be_encoded_with_zero_bytes(&self) -> (r: bool) {
        self.only_value.is_some()
    }

    open spec fn spec_is_passed_via_pointer(&self) -> bool {
        self.is_passed_via_pointer
    }

    fn is_passed_via_pointer(&self) -> (r: bool) {
        self.is_passed_via_pointer
    }

    open spec fn spec_only_encoding(&self) -> Option<Seq<char>> {
        match self.only_value {
            Some(value) => Some(value@),
            None => None,
        }
    }

    fn only_encoding(&self) -> (r: Option<OnlyEncoding>) {
        match &self.only_value {
            Some(value) => Some(OnlyEncoding { swift: value.clone() }),
            None => None,
        }
    }

    open spec fn spec_to_rust_type_path(&self, types: &TypeDeclarations) -> Seq<Token> {
        tokens::tokens(self.rust_type)
    }

    fn to_rust_type_path(&self, types: &TypeDeclarations) -> (r: TokenStream) {
        tokens::copy_stream(&self.rust_type)
    }

    open spec fn spec_to_swift_type(
        &self,
        type_pos: TypePosition,
        types: &TypeDeclarations,
        swift_bridge_path: &Path,
    ) -> Seq<char> {
        self.swift_type@
    }

    fn to_swift_type(
        &self,
        type_pos: TypePosition,
        types: &TypeDeclarations,
        swift_bridge_path: &Path,
    ) -> (r: String) {
        self.swift_type.clone()
    }

    open spec fn spec_to_c_type(&self, types: &TypeDeclarations) -> Seq<char> {
        self.c_type@
    }

    fn to_c_type(&self, types: &TypeDeclarations) -> (r: String) {
        self.c_type.clone()
    }

    open spec fn spec_to_ffi_compatible_rust_type(
        &self,
        swift_bridge_path: &Path,
        types: &TypeDeclarations,
    ) -> Seq<Token> {
        tokens::tokens(self.ffi_type)
    }

    fn to_ffi_compatible_rust_type(
        &self,
        swift_bridge_path: &Path,
        types: &TypeDeclarations,
    ) -> (r: TokenStream) {
        tokens::copy_stream(&self.ffi_type)
    }

    open spec fn spec_convert_rust_expression_to_ffi_type(
        &self,
        expression: Seq<Token>,
        swift_bridge_path: &Path,
        types: &TypeDeclarations,
        span: Span,
    ) -> Seq<Token> {
        joined(tokens::token_seqs(self.rust_to_ffi.parts@), expression)
    }

    fn convert_rust_expression_to_ffi_type(
        &self,
        expression: &TokenStream,
        swift_bridge_path: &Path,
        types: &TypeDeclarations,
        span: Span,
    ) -> (r: TokenStream) {
        self.rust_to_ffi.fill(expression)
    }

    open spec fn spec_convert_ffi_result_ok_value_to_rust_value(
        &self,
        expression: Seq<Token>,
        swift_bridge_path: &Path,
        types: &TypeDeclarations,
    ) -> Seq<Token> {
        joined(tokens::token_seqs(self.ffi_ok_to_rust.parts@), expression)
    }

    fn convert_ffi_result_ok_value_to_rust_value(
        &self,
        expression: &TokenStream,
        swift_bridge_path: &Path,
        types: &TypeDeclarations,
    ) -> (r: TokenStream) {
        self.ffi_ok_to_rust.fill(expression)
    }

    open spec fn spec_convert_ffi_result_err_value_to_rust_value(
        &self,
        expression: Seq<Token>,
        swift_bridge_path: &Path,
        types: &TypeDeclarations,
    ) -> Seq<Token> {
        joined(tokens::token_seqs(self.ffi_err_to_rust.parts@), expression)
    }

    fn convert_ffi_result_err_value_to_rust_value(
        &self,
        expression: &TokenStream,
        swift_bridge_path: &Path,
        types: &TypeDeclarations,
    ) -> (r: TokenStream) {
        self.ffi_err_to_rust.fill(expression)
    }

    open spec fn spec_convert_ffi_expression_to_swift_type(
        &self,
        expression: Seq<char>,
        type_pos: TypePosition,
        types: &TypeDeclarations,
        swift_bridge_path: &Path,
    ) -> Seq<char> {
        joined(self.ffi_to_swift.texts(), expression)
    }

    fn convert_ffi_expression_to_swift_type(
        &self,
        expression: &str,
        type_pos: TypePosition,
        types: &TypeDeclarations,
        swift_bridge_path: &Path,
    ) -> (r: String) {
        self.ffi_to_swift.fill(expression)
    }

    open spec fn spec_convert_swift_expression_to_ffi_type(
        &self,
        expression: Seq<char>,
        types: &TypeDeclarations,
        type_pos: TypePosition,
    ) -> Seq<char> {
        joined(self.swift_to_ffi.texts(), expression)
    }

    fn convert_swift_expression_to_ffi_type(
        &self,
        expression: &str,
        types: &TypeDeclarations,
        type_pos: TypePosition,
    ) -> (r: String) {
        self.swift_to_ffi.fill(expression)
    }

    open spec fn spec_to_alpha_numeric_underscore_name(
        &self,
        types: &TypeDeclarations,
    ) -> Seq<char> {
        self.name@
    }

    fn to_alpha_numeric_underscore_name(&self, types: &TypeDeclarations) -> (r: String) {
        self.name.clone()
    }

    open spec fn spec_generate_custom_rust_ffi_types(
        &self,
        swift_bridge_path: &Path,
        types: &TypeDeclarations,
    ) -> Option<Seq<Seq<Token>>> {
        if self.rust_definitions@.len() == 0 {
            None
        } else {
            Some(tokens::token_seqs(self.rust_definitions@))
        }
    }

    fn generate_custom_rust_ffi_types(
        &self,
        swift_bridge_path: &Path,
        types: &TypeDeclarations,
    ) -> (r: Option<Vec<TokenStream>>) {
        if self.rust_definitions.len() == 0 {
            return None;
        }
        let mut r: Vec<TokenStream> = Vec::new();
        let mut i: usize = 0;
        while i < self.rust_definitions.len()
            invariant
                i <= self.rust_definitions@.len(),
                tokens::token_seqs(r@) == tokens::token_seqs(self.rust_definitions@).take(i as int),
            decreases self.rust_definitions@.len() - i,
        {
            let ghost before = tokens::token_seqs(r@);
            r.push(tokens::copy_stream(&self.rust_definitions[i]));
            assert(tokens::token_seqs(r@) =~= before.push(tokens::token_seqs(r@)[i as int]));
            assert(tokens::token_seqs(r@)
                =~= tokens::token_seqs(self.rust_definitions@).take(i + 1));
            i = i + 1;
        }
        assert(tokens::token_seqs(self.rust_definitions@).take(i as int)
            =~= tokens::token_seqs(self.rust_definitions@));
        Some(r)
    }

    open spec fn spec_generate_custom_c_ffi_types(&self, types: &TypeDeclarations) -> Option<
        CDefinition,
    > {
        match self.c_definition {
            Some(text) => Some(CDefinition { text: text@, fields: Seq::empty() }),
            None => None,
        }
    }

    fn generate_custom_c_ffi_types(&self, types: &TypeDeclarations) -> (r: Option<CFfiStruct>) {
        match &self.c_definition {
            Some(text) => {
                let r = CFfiStruct { c_ffi_type: text.clone(), fields: Vec::new() };
                assert(crate::bridged_type::c_definition(r).fields =~= Seq::empty());
                Some(r)
            },
            None => None,
        }
    }
}

} // verus!

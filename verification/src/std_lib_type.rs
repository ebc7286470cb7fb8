//! Types of the standard library that cross the bridge as they are.
use proc_macro2::{Span, TokenStream};
use syn::Path;
use vstd::prelude::*;

use crate::bridged_type::{
    Aspect, BridgeableType, CDefinition, CFfiStruct, NamedType, OnlyEncoding, TypePosition,
};
use crate::declarations::TypeDeclarations;
use crate::text;
use crate::tokens;
use crate::tokens::{Bracket, Token};

verus! {

/// A type of the standard library that crosses the bridge as it is.
#[derive(Debug, Clone, Copy, PartialEq, Eq, Structural)]
pub enum StdLibType {
    /// `()`, which has one value only and needs no memory.
    Null,
    U8,
    I8,
    U16,
    I16,
    U32,
    I32,
    U64,
    I64,
    Bool,
}

impl View for StdLibType {
    type V = StdLibType;

    open spec fn view(&self) -> StdLibType {
        *self
    }
}

impl StdLibType {
    /// The type in Rust.
    pub open spec fn spec_rust_name(&self) -> Seq<char> {
        match self {
            StdLibType::Null => "()"@,
            StdLibType::U8 => "u8"@,
            StdLibType::I8 => "i8"@,
            StdLibType::U16 => "u16"@,
            StdLibType::I16 => "i16"@,
            StdLibType::U32 => "u32"@,
            StdLibType::I32 => "i32"@,
            StdLibType::U64 => "u64"@,
            StdLibType::I64 => "i64"@,
            StdLibType::Bool => "bool"@,
        }
    }

    /// The type in Rust.
    pub fn rust_name(&self) -> (r: &'static str)
        ensures
            r@ == self.spec_rust_name(),
    {
        match self {
            StdLibType::Null => "()",
            StdLibType::U8 => "u8",
            StdLibType::I8 => "i8",
            StdLibType::U16 => "u16",
            StdLibType::I16 => "i16",
            StdLibType::U32 => "u32",
            StdLibType::I32 => "i32",
            StdLibType::U64 => "u64",
            StdLibType::I64 => "i64",
            StdLibType::Bool => "bool",
        }
    }

    /// The type in Swift.
    pub open spec fn spec_swift_name(&self) -> Seq<char> {
        match self {
            StdLibType::Null => "()"@,
            StdLibType::U8 => "UInt8"@,
            StdLibType::I8 => "Int8"@,
            StdLibType::U16 => "UInt16"@,
            StdLibType::I16 => "Int16"@,
            StdLibType::U32 => "UInt32"@,
            StdLibType::I32 => "Int32"@,
            StdLibType::U64 => "UInt64"@,
            StdLibType::I64 => "Int64"@,
            StdLibType::Bool => "Bool"@,
        }
    }

    /// The type in Swift.
    pub fn swift_name(&self) -> (r: &'static str)
        ensures
            r@ == self.spec_swift_name(),
    {
        match self {
            StdLibType::Null => "()",
            StdLibType::U8 => "UInt8",
            StdLibType::I8 => "Int8",
            StdLibType::U16 => "UInt16",
            StdLibType::I16 => "Int16",
            StdLibType::U32 => "UInt32",
            StdLibType::I32 => "Int32",
            StdLibType::U64 => "UInt64",
            StdLibType::I64 => "Int64",
            StdLibType::Bool => "Bool",
        }
    }

    /// The type in C.
    pub open spec fn spec_c_name(&self) -> Seq<char> {
        match self {
            StdLibType::Null => "void"@,
            StdLibType::U8 => "uint8_t"@,
            StdLibType::I8 => "int8_t"@,
            StdLibType::U16 => "uint16_t"@,
            StdLibType::I16 => "int16_t"@,
            StdLibType::U32 => "uint32_t"@,
            StdLibType::I32 => "int32_t"@,
            StdLibType::U64 => "uint64_t"@,
            StdLibType::I64 => "int64_t"@,
            StdLibType::Bool => "bool"@,
        }
    }

    /// The type in C.
    pub fn c_name(&self) -> (r: &'static str)
        ensures
            r@ == self.spec_c_name(),
    {
        match self {
            StdLibType::Null => "void",
            StdLibType::U8 => "uint8_t",
            StdLibType::I8 => "int8_t",
            StdLibType::U16 => "uint16_t",
            StdLibType::I16 => "int16_t",
            StdLibType::U32 => "uint32_t",
            StdLibType::I32 => "int32_t",
            StdLibType::U64 => "uint64_t",
            StdLibType::I64 => "int64_t",
            StdLibType::Bool => "bool",
        }
    }

    /// The type as a part of an identifier.
    pub open spec fn spec_word(&self) -> Seq<char> {
        match self {
            StdLibType::Null => "Void"@,
            StdLibType::U8 => "U8"@,
            StdLibType::I8 => "I8"@,
            StdLibType::U16 => "U16"@,
            StdLibType::I16 => "I16"@,
            StdLibType::U32 => "U32"@,
            StdLibType::I32 => "I32"@,
            StdLibType::U64 => "U64"@,
            StdLibType::I64 => "I64"@,
            StdLibType::Bool => "Bool"@,
        }
    }

    /// The type as a part of an identifier.
    pub fn word(&self) -> (r: &'static str)
        ensures
            r@ == self.spec_word(),
    {
        match self {
            StdLibType::Null => "Void",
            StdLibType::U8 => "U8",
            StdLibType::I8 => "I8",
            StdLibType::U16 => "U16",
            StdLibType::I16 => "I16",
            StdLibType::U32 => "U32",
            StdLibType::I32 => "I32",
            StdLibType::U64 => "U64",
            StdLibType::I64 => "I64",
            StdLibType::Bool => "Bool",
        }
    }

    /// The type as Rust source.
    pub open spec fn rust_tokens(&self) -> Seq<Token> {
        match self {
            StdLibType::Null => tokens::group(tokens::itself(), Bracket::Round, Seq::empty()),
            _ => tokens::ident(tokens::itself(), self.spec_rust_name()),
        }
    }

    fn rust_stream(&self) -> (r: TokenStream)
        ensures
            tokens::tokens(r) == self.rust_tokens(),
    {
        let site = Span::call_site();
        if let StdLibType::Null = self {
            let mut r = TokenStream::new();
            tokens::push_group(&mut r, Bracket::Round, TokenStream::new(), site);
            r
        } else {
            proof {
                lemma_name_is_ident(*self);
            }
            tokens::ident_stream(self.rust_name(), site)
        }
    }
}

proof fn lemma_name_is_ident(ty: StdLibType)
    requires
        ty != StdLibType::Null,
    ensures
        tokens::is_ident(ty.spec_rust_name()),
{
    reveal(tokens::is_ident);
    reveal_strlit("u8");
    reveal_strlit("i8");
    reveal_strlit("u16");
    reveal_strlit("i16");
    reveal_strlit("u32");
    reveal_strlit("i32");
    reveal_strlit("u64");
    reveal_strlit("i64");
    reveal_strlit("bool");
}

/// A type is found by its own name and no other one, and its name is that of no other
/// type.
pub proof fn law_std_lib_type_is_found_by_name(ty: StdLibType, types: &TypeDeclarations)
    ensures
        StdLibType::spec_new_with_str(ty.spec_rust_name(), types) == Some(ty),
        forall|other: StdLibType|
            #[trigger] other.spec_rust_name() == ty.spec_rust_name() ==> other == ty,
        forall|string: Seq<char>| #[trigger]
            StdLibType::spec_new_with_str(string, types) == Some(ty) ==> string
                == ty.spec_rust_name(),
{
    reveal_strlit("()");
    reveal_strlit("u8");
    reveal_strlit("i8");
    reveal_strlit("u16");
    reveal_strlit("i16");
    reveal_strlit("u32");
    reveal_strlit("i32");
    reveal_strlit("u64");
    reveal_strlit("i64");
    reveal_strlit("bool");
    assert("()"@[0] == '(' && "()"@[1] == ')');
    assert("u8"@[0] == 'u' && "u8"@[1] == '8');
    assert("i8"@[0] == 'i' && "i8"@[1] == '8');
    assert("u16"@[0] == 'u' && "u16"@[1] == '1');
    assert("i16"@[0] == 'i' && "i16"@[1] == '1');
    assert("u32"@[0] == 'u' && "u32"@[1] == '3');
    assert("i32"@[0] == 'i' && "i32"@[1] == '3');
    assert("u64"@[0] == 'u' && "u64"@[1] == '6');
    assert("i64"@[0] == 'i' && "i64"@[1] == '6');
    assert("bool"@[0] == 'b' && "bool"@[1] == 'o');
}

impl NamedType for StdLibType {
    open spec fn spec_new_with_str(string: Seq<char>, types: &TypeDeclarations) -> Option<
        StdLibType,
    > {
        if string == "()"@ {
            Some(StdLibType::Null)
        } else if string == "u8"@ {
            Some(StdLibType::U8)
        } else if string == "i8"@ {
            Some(StdLibType::I8)
        } else if string == "u16"@ {
            Some(StdLibType::U16)
        } else if string == "i16"@ {
            Some(StdLibType::I16)
        } else if string == "u32"@ {
            Some(StdLibType::U32)
        } else if string == "i32"@ {
            Some(StdLibType::I32)
        } else if string == "u64"@ {
            Some(StdLibType::U64)
        } else if string == "i64"@ {
            Some(StdLibType::I64)
        } else if string == "bool"@ {
            Some(StdLibType::Bool)
        } else {
            None
        }
    }

    fn new_with_str(string: &str, types: &TypeDeclarations) -> (r: Option<Self>) {
        if text::same(string, "()") {
            Some(StdLibType::Null)
        } else if text::same(string, "u8") {
            Some(StdLibType::U8)
        } else if text::same(string, "i8") {
            Some(StdLibType::I8)
        } else if text::same(string, "u16") {
            Some(StdLibType::U16)
        } else if text::same(string, "i16") {
            Some(StdLibType::I16)
        } else if text::same(string, "u32") {
            Some(StdLibType::U32)
        } else if text::same(string, "i32") {
            Some(StdLibType::I32)
        } else if text::same(string, "u64") {
            Some(StdLibType::U64)
        } else if text::same(string, "i64") {
            Some(StdLibType::I64)
        } else if text::same(string, "bool") {
            Some(StdLibType::Bool)
        } else {
            None
        }
    }
}

impl BridgeableType for StdLibType {
    /// A number or a flag does not stand behind a pointer, so it is never the value in
    /// a result that crosses the bridge with one.
    open spec fn has(&self, aspect: Aspect, types: &TypeDeclarations) -> bool {
        aspect is FfiResultToRust ==> *self == StdLibType::Null
    }

    fn has_aspect(&self, aspect: Aspect, types: &TypeDeclarations) -> (r: bool) {
        match aspect {
            Aspect::FfiResultToRust => *self == StdLibType::Null,
            _ => true,
        }
    }

    open spec fn spec_is_null(&self) -> bool {
        *self == StdLibType::Null
    }

    fn is_null(&self) -> (r: bool) {
        *self == StdLibType::Null
    }

    open spec fn spec_can_be_encoded_with_zero_bytes(&self) -> bool {
        *self == StdLibType::Null
    }

    fn can_be_encoded_with_zero_bytes(&self) -> (r: bool) {
        *self == StdLibType::Null
    }

    open spec fn spec_is_passed_via_pointer(&self) -> bool {
        false
    }

    fn is_passed_via_pointer(&self) -> (r: bool) {
        false
    }

    open spec fn spec_only_encoding(&self) -> Option<Seq<char>> {
        match self {
            StdLibType::Null => Some("()"@),
            _ => None,
        }
    }

    fn only_encoding(&self) -> (r: Option<OnlyEncoding>) {
        match self {
            StdLibType::Null => Some(OnlyEncoding { swift: "()".to_string() }),
            _ => None,
        }
    }

    open spec fn spec_to_rust_type_path(&self, types: &TypeDeclarations) -> Seq<Token> {
        self.rust_tokens()
    }

    fn to_rust_type_path(&self, types: &TypeDeclarations) -> (r: TokenStream) {
        self.rust_stream()
    }

    open spec fn spec_to_swift_type(
        &self,
        type_pos: TypePosition,
        types: &TypeDeclarations,
        swift_bridge_path: &Path,
    ) -> Seq<char> {
        self.spec_swift_name()
    }

    fn to_swift_type(
        &self,
        type_pos: TypePosition,
        types: &TypeDeclarations,
        swift_bridge_path: &Path,
    ) -> (r: String) {
        self.swift_name().to_string()
    }

    open spec fn spec_to_c_type(&self, types: &TypeDeclarations) -> Seq<char> {
        self.spec_c_name()
    }

    fn to_c_type(&self, types: &TypeDeclarations) -> (r: String) {
        self.c_name().to_string()
    }

    open spec fn spec_to_ffi_compatible_rust_type(
        &self,
        swift_bridge_path: &Path,
        types: &TypeDeclarations,
    ) -> Seq<Token> {
        self.rust_tokens()
    }

    fn to_ffi_compatible_rust_type(
        &self,
        swift_bridge_path: &Path,
        types: &TypeDeclarations,
    ) -> (r: TokenStream) {
        self.rust_stream()
    }

    open spec fn spec_convert_rust_expression_to_ffi_type(
        &self,
        expression: Seq<Token>,
        swift_bridge_path: &Path,
        types: &TypeDeclarations,
        span: Span,
    ) -> Seq<Token> {
        expression
    }

    fn convert_rust_expression_to_ffi_type(
        &self,
        expression: &TokenStream,
        swift_bridge_path: &Path,
        types: &TypeDeclarations,
        span: Span,
    ) -> (r: TokenStream) {
        tokens::copy_stream(expression)
    }

    open spec fn spec_convert_ffi_result_ok_value_to_rust_value(
        &self,
        expression: Seq<Token>,
        swift_bridge_path: &Path,
        types: &TypeDeclarations,
    ) -> Seq<Token> {
        StdLibType::Null.rust_tokens()
    }

    fn convert_ffi_result_ok_value_to_rust_value(
        &self,
        expression: &TokenStream,
        swift_bridge_path: &Path,
        types: &TypeDeclarations,
    ) -> (r: TokenStream) {
        StdLibType::Null.rust_stream()
    }

    open spec fn spec_convert_ffi_result_err_value_to_rust_value(
        &self,
        expression: Seq<Token>,
        swift_bridge_path: &Path,
        types: &TypeDeclarations,
    ) -> Seq<Token> {
        StdLibType::Null.rust_tokens()
    }

    fn convert_ffi_result_err_value_to_rust_value(
        &self,
        expression: &TokenStream,
        swift_bridge_path: &Path,
        types: &TypeDeclarations,
    ) -> (r: TokenStream) {
        StdLibType::Null.rust_stream()
    }

    open spec fn spec_convert_ffi_expression_to_swift_type(
        &self,
        expression: Seq<char>,
        type_pos: TypePosition,
        types: &TypeDeclarations,
        swift_bridge_path: &Path,
    ) -> Seq<char> {
        expression
    }

    fn convert_ffi_expression_to_swift_type(
        &self,
        expression: &str,
        type_pos: TypePosition,
        types: &TypeDeclarations,
        swift_bridge_path: &Path,
    ) -> (r: String) {
        expression.to_string()
    }

    open spec fn spec_convert_swift_expression_to_ffi_type(
        &self,
        expression: Seq<char>,
        types: &TypeDeclarations,
        type_pos: TypePosition,
    ) -> Seq<char> {
        expression
    }

    fn convert_swift_expression_to_ffi_type(
        &self,
        expression: &str,
        types: &TypeDeclarations,
        type_pos: TypePosition,
    ) -> (r: String) {
        expression.to_string()
    }

    open spec fn spec_to_alpha_numeric_underscore_name(
        &self,
        types: &TypeDeclarations,
    ) -> Seq<char> {
        self.spec_word()
    }

    fn to_alpha_numeric_underscore_name(&self, types: &TypeDeclarations) -> (r: String) {
        self.word().to_string()
    }

    open spec fn spec_generate_custom_rust_ffi_types(
        &self,
        swift_bridge_path: &Path,
        types: &TypeDeclarations,
    ) -> Option<Seq<Seq<Token>>> {
        None
    }

    fn generate_custom_rust_ffi_types(
        &self,
        swift_bridge_path: &Path,
        types: &TypeDeclarations,
    ) -> (r: Option<Vec<TokenStream>>) {
        None
    }

    open spec fn spec_generate_custom_c_ffi_types(&self, types: &TypeDeclarations) -> Option<
        CDefinition,
    > {
        None
    }

    fn generate_custom_c_ffi_types(&self, types: &TypeDeclarations) -> (r: Option<CFfiStruct>) {
        None
    }
}

} // verus!

//! What holds of the types that cross the bridge.
use proc_macro2::{Span, TokenStream};
use syn::Path;
use vstd::prelude::*;

use crate::bridgeable_result::BuiltInResult;
use crate::bridged_type;
use crate::bridged_type::{
    Aspect, BridgeableType, CDefinition, CFfiStruct, NamedType, TypePosition,
};
use crate::built_in::{BridgedType, BridgedTypeView};
use crate::declarations::{HostLang, TypeDeclarations};
use crate::std_lib_type::StdLibType;
use crate::tokens;
use crate::tokens::{Bracket, Token};
use crate::type_description;
use crate::type_description::TypeDescription;

verus! {

/// A bridged type that is no result answers as the type that it holds.
pub proof fn law_other_type_answers<T: BridgeableType>(
    ty: T,
    aspect: Aspect,
    source: Seq<Token>,
    expression: Seq<char>,
    pos: TypePosition,
    types: &TypeDeclarations,
    path: &Path,
    span: Span,
)
    ensures
        ({
            let b = BridgedType::Other(ty);
            &&& b.has(aspect, types) == ty.has(aspect, types)
            &&& b.spec_is_null() == ty.spec_is_null()
            &&& b.spec_can_be_encoded_with_zero_bytes() == ty.spec_can_be_encoded_with_zero_bytes()
            &&& b.spec_is_passed_via_pointer() == ty.spec_is_passed_via_pointer()
            &&& b.spec_only_encoding() == ty.spec_only_encoding()
            &&& b.spec_to_rust_type_path(types) == ty.spec_to_rust_type_path(types)
            &&& b.spec_to_swift_type(pos, types, path) == ty.spec_to_swift_type(pos, types, path)
            &&& b.spec_to_c_type(types) == ty.spec_to_c_type(types)
            &&& b.spec_to_ffi_compatible_rust_type(path, types)
                == ty.spec_to_ffi_compatible_rust_type(path, types)
            &&& b.spec_convert_rust_expression_to_ffi_type(source, path, types, span)
                == ty.spec_convert_rust_expression_to_ffi_type(source, path, types, span)
            &&& b.spec_convert_ffi_result_ok_value_to_rust_value(source, path, types)
                == ty.spec_convert_ffi_result_ok_value_to_rust_value(source, path, types)
            &&& b.spec_convert_ffi_result_err_value_to_rust_value(source, path, types)
                == ty.spec_convert_ffi_result_err_value_to_rust_value(source, path, types)
            &&& b.spec_convert_ffi_expression_to_swift_type(expression, pos, types, path)
                == ty.spec_convert_ffi_expression_to_swift_type(expression, pos, types, path)
            &&& b.spec_convert_swift_expression_to_ffi_type(expression, types, pos)
                == ty.spec_convert_swift_expression_to_ffi_type(expression, types, pos)
            &&& b.spec_to_alpha_numeric_underscore_name(types)
                == ty.spec_to_alpha_numeric_underscore_name(types)
            &&& b.spec_generate_custom_rust_ffi_types(path, types)
                == ty.spec_generate_custom_rust_ffi_types(path, types)
            &&& b.spec_generate_custom_c_ffi_types(types) == ty.spec_generate_custom_c_ffi_types(
                types,
            )
        }),
{
}

/// A bridged type that is a result answers as the result. It is not `()`, has more than
/// one value, and is not passed via a pointer.
pub proof fn law_result_answers<T: BridgeableType>(
    result: BuiltInResult<T, T>,
    aspect: Aspect,
    source: Seq<Token>,
    expression: Seq<char>,
    pos: TypePosition,
    types: &TypeDeclarations,
    path: &Path,
    span: Span,
)
    ensures
        ({
            let b = BridgedType::Result(result);
            &&& b.has(aspect, types) == result.has(aspect, types)
            &&& !b.spec_is_null()
            &&& !b.spec_can_be_encoded_with_zero_bytes()
            &&& !b.spec_is_passed_via_pointer()
            &&& b.spec_only_encoding() is None
            &&& b.spec_to_rust_type_path(types) == result.spec_to_rust_type_path(types)
            &&& b.spec_to_swift_type(pos, types, path) == result.spec_to_swift_type(
                pos,
                types,
                path,
            )
            &&& b.spec_to_c_type(types) == result.spec_to_c(types)
            &&& b.spec_to_ffi_compatible_rust_type(path, types)
                == result.spec_to_ffi_compatible_rust_type(path, types)
            &&& b.spec_convert_rust_expression_to_ffi_type(source, path, types, span)
                == result.spec_convert_rust_expression_to_ffi_type(source, path, types, span)
            &&& b.spec_convert_ffi_expression_to_swift_type(expression, pos, types, path)
                == result.spec_convert_ffi_value_to_swift_value(expression, pos, types, path)
            &&& b.spec_convert_swift_expression_to_ffi_type(expression, types, pos)
                == result.spec_convert_swift_expression_to_ffi_compatible(expression, types, pos)
            &&& b.spec_generate_custom_rust_ffi_types(path, types)
                == result.spec_generate_custom_rust_ffi_types(path, types)
            &&& b.spec_generate_custom_c_ffi_types(types)
                == result.spec_generate_custom_c_ffi_types(types)
        }),
{
}

/// A name that starts with `Result < ` is that of a result, and of nothing else, and any
/// other name is that of the type inside.
pub proof fn law_bridged_type_names<T: NamedType>(string: Seq<char>, types: &TypeDeclarations)
    ensures
        ({
            let found = BridgedType::<T>::spec_new_with_str(string, types);
            &&& "Result < "@.is_prefix_of(string) ==> match BuiltInResult::<
                T,
                T,
            >::spec_from_str_tokens(string, types) {
                Some((ok, err)) => found == Some(BridgedTypeView::Result(ok, err)),
                None => found is None,
            }
            &&& !"Result < "@.is_prefix_of(string) ==> match T::spec_new_with_str(string, types) {
                Some(view) => found == Some(BridgedTypeView::Other(view)),
                None => found is None,
            }
        }),
{
}

/// The number of bits of a number, and whether it has a sign.
pub open spec fn number_format(ty: StdLibType) -> Option<(Seq<char>, bool)> {
    match ty {
        StdLibType::U8 => Some(("8"@, false)),
        StdLibType::I8 => Some(("8"@, true)),
        StdLibType::U16 => Some(("16"@, false)),
        StdLibType::I16 => Some(("16"@, true)),
        StdLibType::U32 => Some(("32"@, false)),
        StdLibType::I32 => Some(("32"@, true)),
        StdLibType::U64 => Some(("64"@, false)),
        StdLibType::I64 => Some(("64"@, true)),
        StdLibType::Null => None,
        StdLibType::Bool => None,
    }
}

/// A number has the same number of bits and the same sign in each language, and its
/// name says so everywhere.
pub proof fn law_numbers_agree(ty: StdLibType, types: &TypeDeclarations, path: &Path)
    ensures
        ({
            let pos = TypePosition::FnReturn(HostLang::Rust);
            let rust = ty.spec_rust_name();
            let swift = ty.spec_to_swift_type(pos, types, path);
            let c = ty.spec_to_c_type(types);
            let word = ty.spec_to_alpha_numeric_underscore_name(types);
            match number_format(ty) {
                Some((bits, true)) => {
                    &&& rust == "i"@ + bits
                    &&& swift == "Int"@ + bits
                    &&& c == "int"@ + bits + "_t"@
                    &&& word == "I"@ + bits
                },
                Some((bits, false)) => {
                    &&& rust == "u"@ + bits
                    &&& swift == "UInt"@ + bits
                    &&& c == "uint"@ + bits + "_t"@
                    &&& word == "U"@ + bits
                },
                None => if ty == StdLibType::Null {
                    rust == "()"@ && swift == "()"@ && c == "void"@ && word == "Void"@
                } else {
                    rust == "bool"@ && swift == "Bool"@ && c == "bool"@ && word == "Bool"@
                },
            }
        }),
{
    reveal_strlit("8");
    reveal_strlit("16");
    reveal_strlit("32");
    reveal_strlit("64");
    reveal_strlit("i");
    reveal_strlit("u");
    reveal_strlit("I");
    reveal_strlit("U");
    reveal_strlit("Int");
    reveal_strlit("UInt");
    reveal_strlit("int");
    reveal_strlit("uint");
    reveal_strlit("_t");
    reveal_strlit("u8");
    reveal_strlit("i8");
    reveal_strlit("u16");
    reveal_strlit("i16");
    reveal_strlit("u32");
    reveal_strlit("i32");
    reveal_strlit("u64");
    reveal_strlit("i64");
    reveal_strlit("U8");
    reveal_strlit("I8");
    reveal_strlit("U16");
    reveal_strlit("I16");
    reveal_strlit("U32");
    reveal_strlit("I32");
    reveal_strlit("U64");
    reveal_strlit("I64");
    reveal_strlit("UInt8");
    reveal_strlit("Int8");
    reveal_strlit("UInt16");
    reveal_strlit("Int16");
    reveal_strlit("UInt32");
    reveal_strlit("Int32");
    reveal_strlit("UInt64");
    reveal_strlit("Int64");
    reveal_strlit("uint8_t");
    reveal_strlit("int8_t");
    reveal_strlit("uint16_t");
    reveal_strlit("int16_t");
    reveal_strlit("uint32_t");
    reveal_strlit("int32_t");
    reveal_strlit("uint64_t");
    reveal_strlit("int64_t");
    let pos = TypePosition::FnReturn(HostLang::Rust);
    if let Some((bits, signed)) = number_format(ty) {
        if signed {
            assert(ty.spec_rust_name() =~= "i"@ + bits);
            assert(ty.spec_to_swift_type(pos, types, path) =~= "Int"@ + bits);
            assert(ty.spec_to_c_type(types) =~= "int"@ + bits + "_t"@);
            assert(ty.spec_to_alpha_numeric_underscore_name(types) =~= "I"@ + bits);
        } else {
            assert(ty.spec_rust_name() =~= "u"@ + bits);
            assert(ty.spec_to_swift_type(pos, types, path) =~= "UInt"@ + bits);
            assert(ty.spec_to_c_type(types) =~= "uint"@ + bits + "_t"@);
            assert(ty.spec_to_alpha_numeric_underscore_name(types) =~= "U"@ + bits);
        }
    }
}

/// A type of the standard library crosses the bridge as it is, wherever it stands: each
/// conversion is the expression, its Rust type is the one in which it crosses the
/// bridge, and it needs no definitions. Only `()` takes up no memory and has one value.
pub proof fn law_std_lib_type_is_passed_as_it_is(
    ty: StdLibType,
    source: Seq<Token>,
    expression: Seq<char>,
    pos: TypePosition,
    types: &TypeDeclarations,
    path: &Path,
    span: Span,
)
    ensures
        ty.spec_convert_rust_expression_to_ffi_type(source, path, types, span) == source,
        ty.spec_convert_ffi_expression_to_swift_type(expression, pos, types, path) == expression,
        ty.spec_convert_swift_expression_to_ffi_type(expression, types, pos) == expression,
        ty.spec_to_ffi_compatible_rust_type(path, types) == ty.spec_to_rust_type_path(types),
        ty != StdLibType::Null ==> ty.spec_to_rust_type_path(types) == seq![
            Token::Ident(ty.spec_rust_name()),
        ],
        ty == StdLibType::Null ==> ty.spec_to_rust_type_path(types) == seq![
            Token::Open(Bracket::Round),
            Token::Close(Bracket::Round),
        ],
        ty.spec_to_swift_type(pos, types, path) == ty.spec_to_swift_type(
            TypePosition::FnReturn(HostLang::Rust),
            types,
            path,
        ),
        ty.spec_convert_ffi_result_ok_value_to_rust_value(source, path, types) == seq![
            Token::Open(Bracket::Round),
            Token::Close(Bracket::Round),
        ],
        ty.spec_convert_ffi_result_err_value_to_rust_value(source, path, types) == seq![
            Token::Open(Bracket::Round),
            Token::Close(Bracket::Round),
        ],
        ty.spec_generate_custom_rust_ffi_types(path, types) is None,
        ty.spec_generate_custom_c_ffi_types(types) is None,
        !ty.spec_is_passed_via_pointer(),
        ty.spec_is_null() <==> ty == StdLibType::Null,
        ty.spec_can_be_encoded_with_zero_bytes() <==> ty == StdLibType::Null,
        ty.spec_only_encoding() == (if ty == StdLibType::Null {
            Some("()"@)
        } else {
            None
        }),
{
    let unit = seq![Token::Open(Bracket::Round), Token::Close(Bracket::Round)];
    assert(StdLibType::Null.rust_tokens() =~= unit);
    if ty != StdLibType::Null {
        assert(ty.rust_tokens() =~= seq![Token::Ident(ty.spec_rust_name())]);
    }
}

/// A type of the standard library has every aspect, but a number or a flag never stands
/// behind the pointer of a result.
pub proof fn law_std_lib_type_aspects(ty: StdLibType, aspect: Aspect, types: &TypeDeclarations)
    ensures
        ty.has(aspect, types) <==> ty == StdLibType::Null || aspect != Aspect::FfiResultToRust,
{
}

/// A template is its first part, and the expression before each further one.
pub proof fn law_template_grows<A>(parts: Seq<Seq<A>>, part: Seq<A>, expression: Seq<A>)
    ensures
        type_description::joined(Seq::<Seq<A>>::empty(), expression) == Seq::<A>::empty(),
        type_description::joined(seq![part], expression) == part,
        parts.len() > 0 ==> type_description::joined(parts.push(part), expression)
            == type_description::joined(parts, expression) + expression + part,
{
    assert(parts.push(part).drop_last() =~= parts);
}

/// A described type answers from its description, wherever it stands, and has every
/// aspect.
pub proof fn law_description_answers(
    ty: &TypeDescription,
    aspect: Aspect,
    source: Seq<Token>,
    expression: Seq<char>,
    pos: TypePosition,
    types: &TypeDeclarations,
    path: &Path,
    span: Span,
)
    ensures
        ty.has(aspect, types),
        ty.spec_is_null() == ty.is_null,
        ty.spec_is_passed_via_pointer() == ty.is_passed_via_pointer,
        ty.spec_can_be_encoded_with_zero_bytes() == ty.only_value is Some,
        match (ty.spec_only_encoding(), ty.only_value) {
            (Some(encoding), Some(value)) => encoding == value@,
            (None, None) => true,
            _ => false,
        },
        ty.spec_to_rust_type_path(types) == tokens::tokens(ty.rust_type),
        ty.spec_to_swift_type(pos, types, path) == ty.swift_type@,
        ty.spec_to_c_type(types) == ty.c_type@,
        ty.spec_to_ffi_compatible_rust_type(path, types) == tokens::tokens(ty.ffi_type),
        ty.spec_to_alpha_numeric_underscore_name(types) == ty.name@,
        ty.spec_convert_rust_expression_to_ffi_type(source, path, types, span)
            == type_description::joined(tokens::token_seqs(ty.rust_to_ffi.parts@), source),
        ty.spec_convert_ffi_result_ok_value_to_rust_value(source, path, types)
            == type_description::joined(tokens::token_seqs(ty.ffi_ok_to_rust.parts@), source),
        ty.spec_convert_ffi_result_err_value_to_rust_value(source, path, types)
            == type_description::joined(tokens::token_seqs(ty.ffi_err_to_rust.parts@), source),
        ty.ffi_to_swift.texts().len() == ty.ffi_to_swift.parts@.len(),
        forall|i: int|
            0 <= i < ty.ffi_to_swift.parts@.len() ==> #[trigger] ty.ffi_to_swift.texts()[i]
                == ty.ffi_to_swift.parts@[i]@,
        ty.spec_convert_ffi_expression_to_swift_type(expression, pos, types, path)
            == type_description::joined(ty.ffi_to_swift.texts(), expression),
        ty.spec_convert_swift_expression_to_ffi_type(expression, types, pos)
            == type_description::joined(ty.swift_to_ffi.texts(), expression),
        ty.spec_generate_custom_rust_ffi_types(path, types) is None
            <==> ty.rust_definitions@.len() == 0,
        ty.spec_generate_custom_rust_ffi_types(path, types) matches Some(definitions)
            ==> definitions == tokens::token_seqs(ty.rust_definitions@),
        match (ty.spec_generate_custom_c_ffi_types(types), ty.c_definition) {
            (Some(definition), Some(text)) => definition.text == text@ && definition.fields
                == Seq::<CDefinition>::empty(),
            (None, None) => true,
            _ => false,
        },
{
}

/// The identifiers are the texts that start with a letter or an underscore and go on
/// with letters, digits and underscores, where a letter is one of ASCII or one with an
/// accent of Latin-1.
pub proof fn law_identifiers(text: Seq<char>)
    ensures
        tokens::is_ident(text) <==> {
            &&& text.len() > 0
            &&& !('0' <= text[0] <= '9')
            &&& forall|i: int|
                0 <= i < text.len() ==> {
                    let c = #[trigger] text[i];
                    ||| 'a' <= c <= 'z' || 'A' <= c <= 'Z' || '0' <= c <= '9' || c == '_'
                    ||| '\u{c0}' <= c <= '\u{d6}' || '\u{d8}' <= c <= '\u{f6}'
                    ||| '\u{f8}' <= c <= '\u{ff}'
                }
        },
{
    reveal(tokens::is_ident);
    if tokens::is_ident(text) {
        assert forall|i: int| 0 <= i < text.len() implies {
            let c = #[trigger] text[i];
            ||| 'a' <= c <= 'z' || 'A' <= c <= 'Z' || '0' <= c <= '9' || c == '_'
            ||| '\u{c0}' <= c <= '\u{d6}' || '\u{d8}' <= c <= '\u{f6}'
            ||| '\u{f8}' <= c <= '\u{ff}'
        } by {
            assert(tokens::is_word_char(text[i]));
        }
    }
}

/// What a result of two types that have every aspect lacks. It has no name and does not
/// stand behind the pointer of another result. A tagged union needs an error that takes
/// up memory, and an identifier where it stands in Rust source; it is taken apart only
/// where it is returned, and by a throwing Rust initializer. No other result lacks
/// anything, but to an initializer it has no Swift type, and an `async` function hands
/// it over only with an error that takes up memory.
pub proof fn law_result_aspects<O: BridgeableType + ?Sized, E: BridgeableType + ?Sized>(
    result: &BuiltInResult<O, E>,
    aspect: Aspect,
    types: &TypeDeclarations,
)
    requires
        forall|a: Aspect| #[trigger] result.ok_ty.has(a, types),
        forall|a: Aspect| #[trigger] result.err_ty.has(a, types),
    ensures
        ({
            let custom = result.spec_is_custom_result_type();
            let error_is_empty = result.err_ty.spec_can_be_encoded_with_zero_bytes();
            let is_ident = tokens::is_ident(
                "Result"@ + result.ok_ty.spec_to_alpha_numeric_underscore_name(types) + "And"@
                    + result.err_ty.spec_to_alpha_numeric_underscore_name(types),
            );
            result.has(aspect, types) <==> match aspect {
                Aspect::Name | Aspect::FfiResultToRust => false,
                Aspect::CType | Aspect::SwiftToFfi(_) => true,
                Aspect::FfiType => !custom || is_ident,
                Aspect::CDefinition => !custom || !error_is_empty,
                Aspect::RustDefinitions | Aspect::RustToFfi => !custom || (!error_is_empty
                    && is_ident),
                Aspect::FfiToSwift(TypePosition::FnReturn(_)) => !custom || !error_is_empty,
                Aspect::FfiToSwift(TypePosition::ThrowingInit(HostLang::Rust)) => !custom
                    || !error_is_empty,
                Aspect::FfiToSwift(_) => !custom,
                Aspect::SwiftType(TypePosition::ThrowingInit(_)) => false,
                Aspect::SwiftType(TypePosition::SwiftCallsRustAsyncOnCompleteReturnTy) => {
                    !error_is_empty
                },
                Aspect::SwiftType(_) => true,
            }
        }),
        forall|pos: TypePosition| #[trigger] result.has_callback(pos, types),
{
}

/// A result lacks what it would have from a type that lacks it: both types are asked
/// where both are written, and only the one that is written otherwise.
pub proof fn law_result_lacks<O: BridgeableType + ?Sized, E: BridgeableType + ?Sized>(
    result: &BuiltInResult<O, E>,
    pos: TypePosition,
    types: &TypeDeclarations,
)
    ensures
        ({
            let custom = result.spec_is_custom_result_type();
            let ok = |a: Aspect| result.ok_ty.has(a, types);
            let err = |a: Aspect| result.err_ty.has(a, types);
            let ok_is_empty = result.ok_ty.spec_can_be_encoded_with_zero_bytes();
            &&& custom && !(ok(Aspect::Name) && err(Aspect::Name)) ==> {
                &&& !result.has(Aspect::CType, types)
                &&& !result.has(Aspect::FfiType, types)
                &&& !result.has(Aspect::CDefinition, types)
                &&& !result.has(Aspect::RustDefinitions, types)
                &&& !result.has(Aspect::RustToFfi, types)
                &&& !result.has(Aspect::FfiToSwift(pos), types)
                &&& !result.has_callback(pos, types)
            }
            &&& !(ok(Aspect::RustToFfi) && err(Aspect::RustToFfi)) ==> !result.has(
                Aspect::RustToFfi,
                types,
            )
            &&& result.has(Aspect::SwiftToFfi(pos), types) <==> ok(Aspect::SwiftToFfi(pos)) && err(
                Aspect::SwiftToFfi(pos),
            )
            &&& pos is FnReturn ==> (result.has(Aspect::SwiftType(pos), types) <==> ok(
                Aspect::SwiftType(pos),
            ))
            &&& pos is FnArg || pos is SharedStructField ==> (result.has(
                Aspect::SwiftType(pos),
                types,
            ) <==> ok(Aspect::SwiftType(pos)) && err(Aspect::SwiftType(pos)))
            &&& !err(Aspect::FfiToSwift(pos)) ==> !result.has(Aspect::FfiToSwift(pos), types)
            &&& custom && !ok_is_empty && !ok(Aspect::FfiToSwift(pos)) ==> !result.has(
                Aspect::FfiToSwift(pos),
                types,
            )
            &&& custom && !ok_is_empty && !ok(Aspect::CType) ==> !result.has(
                Aspect::CDefinition,
                types,
            )
            &&& custom && !ok_is_empty && !ok(Aspect::FfiType) ==> !result.has(
                Aspect::RustDefinitions,
                types,
            )
        }),
{
}

/// The definition that is read from a C struct is its text, and the definitions that are
/// read from its fields, in their order.
pub proof fn law_c_definition_is_read(c: CFfiStruct)
    ensures
        bridged_type::c_definition(c).text == c.c_ffi_type@,
        bridged_type::c_definition(c).fields.len() == c.fields@.len(),
        forall|i: int|
            0 <= i < c.fields@.len() ==> #[trigger] bridged_type::c_definition(c).fields[i]
                == bridged_type::c_definition(c.fields@[i]),
{
}

/// The tokens of some streams are those of each of them, in their order.
pub proof fn law_tokens_of_streams(streams: Seq<TokenStream>)
    ensures
        tokens::token_seqs(streams).len() == streams.len(),
        forall|i: int|
            0 <= i < streams.len() ==> #[trigger] tokens::token_seqs(streams)[i]
                == tokens::tokens(streams[i]),
{
}

/// A result has what it needs its two types for where they have it, and asks nothing
/// more of them: of `Ok` nothing where it is not written, and no name without a tagged
/// union.
pub proof fn law_result_asks_no_more<O: BridgeableType + ?Sized, E: BridgeableType + ?Sized>(
    result: &BuiltInResult<O, E>,
    pos: TypePosition,
    types: &TypeDeclarations,
)
    ensures
        ({
            let custom = result.spec_is_custom_result_type();
            let ok = |a: Aspect| result.ok_ty.has(a, types);
            let err = |a: Aspect| result.err_ty.has(a, types);
            let ok_is_empty = result.ok_ty.spec_can_be_encoded_with_zero_bytes();
            let err_is_empty = result.err_ty.spec_can_be_encoded_with_zero_bytes();
            let named = ok(Aspect::Name) && err(Aspect::Name);
            let is_ident = named && tokens::is_ident(
                "Result"@ + result.ok_ty.spec_to_alpha_numeric_underscore_name(types) + "And"@
                    + result.err_ty.spec_to_alpha_numeric_underscore_name(types),
            );
            let taken_apart = pos is FnReturn || pos == TypePosition::ThrowingInit(HostLang::Rust);
            &&& custom && named ==> result.has(Aspect::CType, types)
            &&& custom && is_ident ==> result.has(Aspect::FfiType, types)
            &&& !custom && (!ok_is_empty || err(Aspect::CType)) ==> result.has(Aspect::CType, types)
            &&& !custom && (!ok_is_empty || err(Aspect::FfiType)) ==> result.has(
                Aspect::FfiType,
                types,
            )
            &&& !custom ==> result.has(Aspect::CDefinition, types) && result.has(
                Aspect::RustDefinitions,
                types,
            )
            &&& custom && named && !err_is_empty && ok(Aspect::CDefinition) && err(
                Aspect::CDefinition,
            ) && (ok_is_empty || ok(Aspect::CType)) && err(Aspect::CType) ==> result.has(
                Aspect::CDefinition,
                types,
            )
            &&& custom && is_ident && !err_is_empty && ok(Aspect::RustDefinitions) && err(
                Aspect::RustDefinitions,
            ) && (ok_is_empty || ok(Aspect::FfiType)) && err(Aspect::FfiType) ==> result.has(
                Aspect::RustDefinitions,
                types,
            )
            &&& ok(Aspect::RustToFfi) && err(Aspect::RustToFfi) && (!custom || (is_ident
                && !err_is_empty)) ==> result.has(Aspect::RustToFfi, types)
            &&& custom && named && !err_is_empty && taken_apart && (ok_is_empty || ok(
                Aspect::FfiToSwift(pos),
            )) && err(Aspect::FfiToSwift(pos)) ==> result.has(Aspect::FfiToSwift(pos), types)
            &&& !custom && (result.ok_ty.spec_only_encoding() is Some || ok(
                Aspect::FfiToSwift(pos),
            )) && err(Aspect::FfiToSwift(pos)) ==> result.has(Aspect::FfiToSwift(pos), types)
            &&& !err_is_empty && (!custom || named) ==> result.has(
                Aspect::SwiftType(TypePosition::SwiftCallsRustAsyncOnCompleteReturnTy),
                types,
            )
            &&& custom ==> (result.has_callback(pos, types) <==> named && (ok_is_empty || ok(
                Aspect::FfiToSwift(pos),
            )) && err(Aspect::FfiToSwift(pos)))
            &&& !custom ==> (result.has_callback(pos, types) <==> ok(Aspect::SwiftType(pos)) && err(
                Aspect::SwiftType(pos),
            ))
        }),
{
}

} // verus!

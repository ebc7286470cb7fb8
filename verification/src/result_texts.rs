//! What the source for a result is, in Rust, C and Swift.
//!
//! Each law writes the source out, over what the two types of the result say of
//! themselves.
use proc_macro2::Span;
use syn::Path;
use vstd::prelude::*;

use crate::bridgeable_result::BuiltInResult;
use crate::bridged_type::{BridgeableType, CDefinition, TypePosition};
use crate::declarations::{HostLang, TypeDeclarations};
use crate::text;
use crate::tokens;
use crate::tokens::{Bracket, Gap, Token};

verus! {

/// A result needs no tagged union if and only if a pointer is there to be passed, and
/// each of the two types is passed via a pointer or has one value only.
pub proof fn law_union_is_needed<O: BridgeableType + ?Sized, E: BridgeableType + ?Sized>(
    result: &BuiltInResult<O, E>,
)
    ensures
        ({
            let ok = result.ok_ty.spec_is_passed_via_pointer();
            let err = result.err_ty.spec_is_passed_via_pointer();
            !result.spec_is_custom_result_type() <==> {
                &&& ok || err
                &&& ok || result.ok_ty.spec_only_encoding() is Some
                &&& err || result.err_ty.spec_only_encoding() is Some
            }
        }),
{
}

/// The tagged union is named after both types, the one for `Ok` first. In C and Swift
/// the name has a prefix, and the tags add whether it is `Ok` or `Err`.
pub proof fn law_union_names<O: BridgeableType + ?Sized, E: BridgeableType + ?Sized>(
    result: &BuiltInResult<O, E>,
    types: &TypeDeclarations,
)
    ensures
        ({
            let ok = result.ok_ty.spec_to_alpha_numeric_underscore_name(types);
            let err = result.err_ty.spec_to_alpha_numeric_underscore_name(types);
            let name = "Result"@ + ok + "And"@ + err;
            let c = "__swift_bridge__$"@ + name;
            &&& result.spec_custom_c_struct_name(types) == name
            &&& result.spec_c_ok_tag_name(types) == c + "$ResultOk"@
            &&& result.spec_c_err_tag_name(types) == c + "$ResultErr"@
            &&& result.c_name(types) == c
        }),
{
    lemma_prefix();
}

proof fn lemma_prefix()
    ensures
        "__swift_bridge__"@ + "$"@ == "__swift_bridge__$"@,
{
    reveal_strlit("__swift_bridge__");
    reveal_strlit("$");
    reveal_strlit("__swift_bridge__$");
    assert("__swift_bridge__"@ + "$"@ =~= "__swift_bridge__$"@);
}

/// In C, a result is the tagged union, or the error alone where `Ok` takes up no
/// memory, or a flag and a pointer.
pub proof fn law_c_type_text<O: BridgeableType + ?Sized, E: BridgeableType + ?Sized>(
    result: &BuiltInResult<O, E>,
    types: &TypeDeclarations,
)
    ensures
        ({
            let ok = result.ok_ty.spec_to_alpha_numeric_underscore_name(types);
            let err = result.err_ty.spec_to_alpha_numeric_underscore_name(types);
            let zero_bytes = result.ok_ty.spec_can_be_encoded_with_zero_bytes();
            let c = result.spec_to_c(types);
            &&& result.spec_is_custom_result_type() ==> c == "struct "@ + ("__swift_bridge__$"@ + (
            "Result"@ + ok + "And"@ + err))
            &&& !result.spec_is_custom_result_type() && zero_bytes ==> c
                == result.err_ty.spec_to_c_type(types)
            &&& !result.spec_is_custom_result_type() && !zero_bytes ==> c
                == "struct __private__ResultPtrAndPtr"@
        }),
{
    lemma_prefix();
}

/// The definition of a tagged union in C: an enum of the two tags, that for `Ok`
/// first; a union with a field for `Ok`, unless `Ok` takes up no memory, and one for
/// `Err`, each of the C type of its side; and a struct of a tag and such a union.
#[verifier::spinoff_prover]
pub proof fn law_c_definition_text<O: BridgeableType + ?Sized, E: BridgeableType + ?Sized>(
    result: &BuiltInResult<O, E>,
    types: &TypeDeclarations,
)
    requires
        result.spec_is_custom_result_type(),
    ensures
        ({
            let ok = result.ok_ty.spec_to_alpha_numeric_underscore_name(types);
            let err = result.err_ty.spec_to_alpha_numeric_underscore_name(types);
            let c = "__swift_bridge__$"@ + ("Result"@ + ok + "And"@ + err);
            let ok_type = result.ok_ty.spec_to_c_type(types);
            let err_type = result.err_ty.spec_to_c_type(types);
            let tags = "typedef enum "@ + (c + "$Tag"@) + " {"@ + (c + "$ResultOk"@) + ", "@ + (c
                + "$ResultErr"@) + "} "@ + (c + "$Tag"@) + ";\n"@;
            let fields = "union "@ + (c + "$Fields"@) + " {"@;
            let whole = "\ntypedef struct "@ + c + "{"@ + (c + "$Tag"@) + " tag; union "@ + (c
                + "$Fields"@) + " payload;} "@ + c + ";"@;
            let definition = result.spec_generate_custom_c_ffi_types(types)->0;
            &&& result.spec_generate_custom_c_ffi_types(types) is Some
            &&& !result.ok_ty.spec_can_be_encoded_with_zero_bytes() ==> definition.text == tags + (
            fields + ok_type + " ok; "@ + err_type + " err;};"@) + whole
            &&& result.ok_ty.spec_can_be_encoded_with_zero_bytes() ==> definition.text == tags + (
            fields + err_type + " err;};"@) + whole
        }),
{
    lemma_prefix();
    reveal_strlit(";\n");
    reveal_strlit("union ");
    reveal_strlit(";\nunion ");
    reveal_strlit(" err;};");
    reveal_strlit("\ntypedef struct ");
    reveal_strlit(" err;};\ntypedef struct ");
    reveal_strlit("");
    assert(";\nunion "@ =~= ";\n"@ + "union "@);
    assert(" err;};\ntypedef struct "@ =~= " err;};"@ + "\ntypedef struct "@);
    let ok = result.ok_ty.spec_to_alpha_numeric_underscore_name(types);
    let err = result.err_ty.spec_to_alpha_numeric_underscore_name(types);
    let c = "__swift_bridge__$"@ + ("Result"@ + ok + "And"@ + err);
    let ok_type = result.ok_ty.spec_to_c_type(types);
    let err_type = result.err_ty.spec_to_c_type(types);
    let tags = "typedef enum "@ + (c + "$Tag"@) + " {"@ + (c + "$ResultOk"@) + ", "@ + (c
        + "$ResultErr"@) + "} "@ + (c + "$Tag"@) + ";\n"@;
    let fields = "union "@ + (c + "$Fields"@) + " {"@;
    let whole = "\ntypedef struct "@ + c + "{"@ + (c + "$Tag"@) + " tag; union "@ + (c
        + "$Fields"@) + " payload;} "@ + c + ";"@;
    let text = result.spec_generate_custom_c_ffi_types(types)->0.text;
    if result.ok_ty.spec_can_be_encoded_with_zero_bytes() {
        assert(text =~= tags + (fields + err_type + " err;};"@) + whole);
    } else {
        assert(text =~= tags + (fields + ok_type + " ok; "@ + err_type + " err;};"@) + whole);
    }
}

/// With the definition of a tagged union in C come those that its two types need, the
/// one for `Ok` first, and no other.
pub proof fn law_c_definitions_that_follow<O: BridgeableType + ?Sized, E: BridgeableType + ?Sized>(
    result: &BuiltInResult<O, E>,
    types: &TypeDeclarations,
)
    requires
        result.spec_is_custom_result_type(),
    ensures
        ({
            let fields = result.spec_generate_custom_c_ffi_types(types)->0.fields;
            let ok = result.ok_ty.spec_generate_custom_c_ffi_types(types);
            let err = result.err_ty.spec_generate_custom_c_ffi_types(types);
            match (ok, err) {
                (Some(o), Some(e)) => fields == seq![o, e],
                (Some(o), None) => fields == seq![o],
                (None, Some(e)) => fields == seq![e],
                (None, None) => fields == Seq::<CDefinition>::empty(),
            }
        }),
{
    let fields = result.spec_generate_custom_c_ffi_types(types)->0.fields;
    let ok = result.ok_ty.spec_generate_custom_c_ffi_types(types);
    let err = result.err_ty.spec_generate_custom_c_ffi_types(types);
    match (ok, err) {
        (Some(o), Some(e)) => assert(fields =~= seq![o, e]),
        (Some(o), None) => assert(fields =~= seq![o]),
        (None, Some(e)) => assert(fields =~= seq![e]),
        (None, None) => assert(fields =~= Seq::<CDefinition>::empty()),
    }
}

/// As a parameter or a field a result is a `RustResult` of both types. Where it is
/// returned it is the type of `Ok`. An `async` function hands it over as the tagged
/// union, or as a pointer to the error where `Ok` takes up no memory, or as a flag and
/// a pointer.
pub proof fn law_swift_type_text<O: BridgeableType + ?Sized, E: BridgeableType + ?Sized>(
    result: &BuiltInResult<O, E>,
    type_pos: TypePosition,
    types: &TypeDeclarations,
    path: &Path,
)
    ensures
        ({
            let ok = result.ok_ty.spec_to_swift_type(type_pos, types, path);
            let err = result.err_ty.spec_to_swift_type(type_pos, types, path);
            let ok_name = result.ok_ty.spec_to_alpha_numeric_underscore_name(types);
            let err_name = result.err_ty.spec_to_alpha_numeric_underscore_name(types);
            let custom = result.spec_is_custom_result_type();
            let zero_bytes = result.ok_ty.spec_can_be_encoded_with_zero_bytes();
            let swift = result.spec_to_swift_type(type_pos, types, path);
            match type_pos {
                TypePosition::FnReturn(_) => swift == ok,
                TypePosition::FnArg(_, _) => swift == "RustResult<"@ + ok + ", "@ + err + ">"@,
                TypePosition::SharedStructField => swift == "RustResult<"@ + ok + ", "@ + err
                    + ">"@,
                TypePosition::SwiftCallsRustAsyncOnCompleteReturnTy => {
                    &&& custom ==> swift == "__swift_bridge__$"@ + ("Result"@ + ok_name + "And"@
                        + err_name)
                    &&& !custom && zero_bytes ==> swift == "UnsafeMutableRawPointer?"@
                    &&& !custom && !zero_bytes ==> swift == "__private__ResultPtrAndPtr"@
                },
                TypePosition::ThrowingInit(_) => true,
            }
        }),
{
    lemma_prefix();
}

/// Swift takes a returned tagged union apart by its tag: behind the tag for `Ok` it
/// returns what the type for `Ok` makes of `val.payload.ok`, or nothing where `Ok` takes
/// up no memory, and behind the tag for `Err` it throws what the type for `Err` makes of
/// `val.payload.err`. How the two types are passed does not matter.
#[verifier::spinoff_prover]
pub proof fn law_returned_union_text<O: BridgeableType + ?Sized, E: BridgeableType + ?Sized>(
    result: &BuiltInResult<O, E>,
    call: Seq<char>,
    lang: HostLang,
    types: &TypeDeclarations,
    path: &Path,
)
    requires
        result.spec_is_custom_result_type(),
    ensures
        ({
            let pos = TypePosition::FnReturn(lang);
            let ok = result.ok_ty.spec_to_alpha_numeric_underscore_name(types);
            let err = result.err_ty.spec_to_alpha_numeric_underscore_name(types);
            let c = "__swift_bridge__$"@ + ("Result"@ + ok + "And"@ + err);
            let returned = result.ok_ty.spec_convert_ffi_expression_to_swift_type(
                "val.payload.ok"@,
                pos,
                types,
                path,
            );
            let thrown = result.err_ty.spec_convert_ffi_expression_to_swift_type(
                "val.payload.err"@,
                pos,
                types,
                path,
            );
            let swift = result.spec_convert_ffi_value_to_swift_value(call, pos, types, path);
            let start = "try { let val = "@ + call + "; switch val.tag { case "@ + (c
                + "$ResultOk"@) + ": return"@;
            let end = " case "@ + (c + "$ResultErr"@) + ": throw "@ + thrown
                + " default: fatalError() } }()"@;
            &&& !result.ok_ty.spec_can_be_encoded_with_zero_bytes() ==> swift == start + " "@
                + returned + end
            &&& result.ok_ty.spec_can_be_encoded_with_zero_bytes() ==> swift == start + end
            &&& text::occurs(" case "@ + (c + "$ResultErr"@) + ": throw "@ + thrown, swift)
        }),
{
    lemma_prefix();
    reveal_strlit("");
    let pos = TypePosition::FnReturn(lang);
    let ok = result.ok_ty.spec_to_alpha_numeric_underscore_name(types);
    let err = result.err_ty.spec_to_alpha_numeric_underscore_name(types);
    let c = "__swift_bridge__$"@ + ("Result"@ + ok + "And"@ + err);
    let returned = result.ok_ty.spec_convert_ffi_expression_to_swift_type(
        "val.payload.ok"@,
        pos,
        types,
        path,
    );
    let thrown = result.err_ty.spec_convert_ffi_expression_to_swift_type(
        "val.payload.err"@,
        pos,
        types,
        path,
    );
    let swift = result.spec_convert_ffi_value_to_swift_value(call, pos, types, path);
    let start = "try { let val = "@ + call + "; switch val.tag { case "@ + (c + "$ResultOk"@)
        + ": return"@;
    let throw = " case "@ + (c + "$ResultErr"@) + ": throw "@ + thrown;
    let end = throw + " default: fatalError() } }()"@;
    if result.ok_ty.spec_can_be_encoded_with_zero_bytes() {
        assert(swift =~= start + end);
        assert(swift =~= start + throw + " default: fatalError() } }()"@);
    } else {
        assert(swift =~= start + " "@ + returned + end);
        assert(swift =~= (start + " "@ + returned) + throw + " default: fatalError() } }()"@);
    }
}

/// A throwing initializer takes the pointer in `val.payload.ok` where the tag is that
/// for `Ok`, and else throws what the type for `Err` makes of `val.payload.err`.
pub proof fn law_thrown_union_text<O: BridgeableType + ?Sized, E: BridgeableType + ?Sized>(
    result: &BuiltInResult<O, E>,
    call: Seq<char>,
    types: &TypeDeclarations,
    path: &Path,
)
    requires
        result.spec_is_custom_result_type(),
    ensures
        ({
            let pos = TypePosition::ThrowingInit(HostLang::Rust);
            let ok = result.ok_ty.spec_to_alpha_numeric_underscore_name(types);
            let err = result.err_ty.spec_to_alpha_numeric_underscore_name(types);
            let c = "__swift_bridge__$"@ + ("Result"@ + ok + "And"@ + err);
            result.spec_convert_ffi_value_to_swift_value(call, pos, types, path) == "let val = "@
                + call + "; if val.tag == "@ + (c + "$ResultOk"@)
                + " { self.init(ptr: val.payload.ok) } else { throw "@
                + result.err_ty.spec_convert_ffi_expression_to_swift_type(
                "val.payload.err"@,
                pos,
                types,
                path,
            ) + " }"@
        }),
{
    lemma_prefix();
}

/// Of a result without a tagged union, Swift throws the error if there is a pointer to
/// one, where `Ok` has one value only, and else by the flag. It returns the one value,
/// but says nothing for `()`, or what the type for `Ok` makes of the pointer. The
/// position and the type of the error change nothing about that.
pub proof fn law_pointer_to_swift_text<O: BridgeableType + ?Sized, E: BridgeableType + ?Sized>(
    result: &BuiltInResult<O, E>,
    call: Seq<char>,
    pos: TypePosition,
    types: &TypeDeclarations,
    path: &Path,
)
    requires
        !result.spec_is_custom_result_type(),
    ensures
        ({
            let swift = result.spec_convert_ffi_value_to_swift_value(call, pos, types, path);
            let error = result.err_ty.spec_convert_ffi_expression_to_swift_type(
                "val!"@,
                pos,
                types,
                path,
            );
            let ok = result.ok_ty.spec_convert_ffi_expression_to_swift_type(
                "val.ok_or_err!"@,
                pos,
                types,
                path,
            );
            let err = result.err_ty.spec_convert_ffi_expression_to_swift_type(
                "val.ok_or_err!"@,
                pos,
                types,
                path,
            );
            match result.ok_ty.spec_only_encoding() {
                Some(value) => {
                    let start = "try { let val = "@ + call + "; if val != nil { throw "@ + error
                        + " } else { return"@;
                    &&& result.ok_ty.spec_is_null() ==> swift == start + " } }()"@
                    &&& !result.ok_ty.spec_is_null() ==> swift == start + " "@ + value + " } }()"@
                },
                None => swift == "try { let val = "@ + call + "; if val.is_ok { return "@ + ok
                    + " } else { throw "@ + err + " } }()"@,
            }
        }),
{
    reveal_strlit("");
    if let Some(value) = result.ok_ty.spec_only_encoding() {
        let swift = result.spec_convert_ffi_value_to_swift_value(call, pos, types, path);
        let error = result.err_ty.spec_convert_ffi_expression_to_swift_type(
            "val!"@,
            pos,
            types,
            path,
        );
        let start = "try { let val = "@ + call + "; if val != nil { throw "@ + error
            + " } else { return"@;
        if result.ok_ty.spec_is_null() {
            assert(swift =~= start + " } }()"@);
        } else {
            assert(swift =~= start + " "@ + value + " } }()"@);
        }
    }
}

/// A `RustResult` becomes a flag and a pointer, which is what the type of the side
/// that it holds makes of the value. That `Ok` takes up no memory changes nothing.
pub proof fn law_swift_to_ffi_text<O: BridgeableType + ?Sized, E: BridgeableType + ?Sized>(
    result: &BuiltInResult<O, E>,
    value: Seq<char>,
    pos: TypePosition,
    types: &TypeDeclarations,
)
    ensures
        result.spec_convert_swift_expression_to_ffi_compatible(value, types, pos) == "{ switch "@
            + value
            + " { case .Ok(let ok): return __private__ResultPtrAndPtr(is_ok: true, ok_or_err: "@
            + result.ok_ty.spec_convert_swift_expression_to_ffi_type("ok"@, types, pos)
            + ") case .Err(let err): return __private__ResultPtrAndPtr(is_ok: false, ok_or_err: "@
            + result.err_ty.spec_convert_swift_expression_to_ffi_type("err"@, types, pos)
            + ") } }()"@,
{
}

/// A tagged union is handed to the callback by its tag: as a success with what the
/// type for `Ok` makes of its part of the union, `()` where it takes up no memory, or as
/// a failure with what the type for `Err` makes of its part.
pub proof fn law_union_callback_text<O: BridgeableType + ?Sized, E: BridgeableType + ?Sized>(
    result: &BuiltInResult<O, E>,
    value: Seq<char>,
    pos: TypePosition,
    types: &TypeDeclarations,
    path: &Path,
)
    requires
        result.spec_is_custom_result_type(),
    ensures
        ({
            let ok = result.ok_ty.spec_to_alpha_numeric_underscore_name(types);
            let err = result.err_ty.spec_to_alpha_numeric_underscore_name(types);
            let c = "__swift_bridge__$"@ + ("Result"@ + ok + "And"@ + err);
            let success = result.ok_ty.spec_convert_ffi_expression_to_swift_type(
                value + ".payload.ok"@,
                pos,
                types,
                path,
            );
            let failure = result.err_ty.spec_convert_ffi_expression_to_swift_type(
                value + ".payload.err"@,
                pos,
                types,
                path,
            );
            let swift = result.spec_generate_swift_calls_async_rust_callback(
                value,
                pos,
                types,
                path,
            );
            let start = "switch "@ + value + ".tag { case "@ + (c + "$ResultOk"@)
                + ": wrapper.cb(.success("@;
            &&& !result.ok_ty.spec_can_be_encoded_with_zero_bytes() ==> swift == start + success
                + ")) case "@ + (c + "$ResultErr"@) + ": wrapper.cb(.failure("@ + failure
                + ")) default: fatalError() }"@
            &&& result.ok_ty.spec_can_be_encoded_with_zero_bytes() ==> swift == start + "()"@
                + ")) case "@ + (c + "$ResultErr"@) + ": wrapper.cb(.failure("@ + failure
                + ")) default: fatalError() }"@
        }),
{
    lemma_prefix();
}

/// Without a tagged union, the callback gets an error if there is a pointer to one,
/// where `Ok` takes up no memory, and else by the flag. Each side is an object of its
/// Swift type for the pointer, but `Ok` is its type where it takes up no memory.
pub proof fn law_pointer_callback_text<O: BridgeableType + ?Sized, E: BridgeableType + ?Sized>(
    result: &BuiltInResult<O, E>,
    value: Seq<char>,
    pos: TypePosition,
    types: &TypeDeclarations,
    path: &Path,
)
    requires
        !result.spec_is_custom_result_type(),
    ensures
        ({
            let ok = result.ok_ty.spec_to_swift_type(pos, types, path);
            let err = result.err_ty.spec_to_swift_type(pos, types, path);
            let swift = result.spec_generate_swift_calls_async_rust_callback(
                value,
                pos,
                types,
                path,
            );
            &&& result.ok_ty.spec_can_be_encoded_with_zero_bytes() ==> swift == "if "@
                + "rustFnRetVal == nil"@ + " {\n        wrapper.cb(.success("@ + ok
                + "))\n    } else {\n        wrapper.cb(.failure("@ + (err
                + "(ptr: rustFnRetVal!)"@) + "))\n    }"@
            &&& !result.ok_ty.spec_can_be_encoded_with_zero_bytes() ==> swift == "if "@
                + "rustFnRetVal.is_ok"@ + " {\n        wrapper.cb(.success("@ + (ok
                + "(ptr: rustFnRetVal.ok_or_err!)"@)
                + "))\n    } else {\n        wrapper.cb(.failure("@ + (err
                + "(ptr: rustFnRetVal.ok_or_err!)"@) + "))\n    }"@
        }),
{
}

/// In Rust, a result is `Result<A, B>` of its two types.
pub proof fn law_rust_type_tokens<O: BridgeableType + ?Sized, E: BridgeableType + ?Sized>(
    result: &BuiltInResult<O, E>,
    types: &TypeDeclarations,
)
    ensures
        result.spec_to_rust_type_path(types) == seq![
            Token::Ident("Result"@),
            Token::Punct('<', Gap::Alone),
        ] + result.ok_ty.spec_to_rust_type_path(types) + seq![Token::Punct(',', Gap::Alone)]
            + result.err_ty.spec_to_rust_type_path(types) + seq![Token::Punct('>', Gap::Alone)],
{
    assert(result.spec_to_rust_type_path(types) =~= seq![
        Token::Ident("Result"@),
        Token::Punct('<', Gap::Alone),
    ] + result.ok_ty.spec_to_rust_type_path(types) + seq![Token::Punct(',', Gap::Alone)]
        + result.err_ty.spec_to_rust_type_path(types) + seq![Token::Punct('>', Gap::Alone)]);
}

/// A result crosses the bridge as the tagged union, or as the error alone where `Ok`
/// takes up no memory, or as `result::ResultPtrAndPtr` of the library at `path`.
pub proof fn law_ffi_type_tokens<O: BridgeableType + ?Sized, E: BridgeableType + ?Sized>(
    result: &BuiltInResult<O, E>,
    path: &Path,
    types: &TypeDeclarations,
)
    ensures
        ({
            let ok = result.ok_ty.spec_to_alpha_numeric_underscore_name(types);
            let err = result.err_ty.spec_to_alpha_numeric_underscore_name(types);
            let custom = result.spec_is_custom_result_type();
            let zero_bytes = result.ok_ty.spec_can_be_encoded_with_zero_bytes();
            let ffi = result.spec_to_ffi_compatible_rust_type(path, types);
            &&& custom ==> ffi == seq![Token::Ident("Result"@ + ok + "And"@ + err)]
            &&& !custom && zero_bytes ==> ffi == result.err_ty.spec_to_ffi_compatible_rust_type(
                path,
                types,
            )
            &&& !custom && !zero_bytes ==> ffi == tokens::path_tokens(*path) + seq![
                Token::Punct(':', Gap::Joint),
                Token::Punct(':', Gap::Alone),
                Token::Ident("result"@),
                Token::Punct(':', Gap::Joint),
                Token::Punct(':', Gap::Alone),
                Token::Ident("ResultPtrAndPtr"@),
            ]
        }),
{
    let ffi = result.spec_to_ffi_compatible_rust_type(path, types);
    if !result.spec_is_custom_result_type()
        && !result.ok_ty.spec_can_be_encoded_with_zero_bytes() {
        assert(ffi =~= tokens::path_tokens(*path) + seq![
            Token::Punct(':', Gap::Joint),
            Token::Punct(':', Gap::Alone),
            Token::Ident("result"@),
            Token::Punct(':', Gap::Joint),
            Token::Punct(':', Gap::Alone),
            Token::Ident("ResultPtrAndPtr"@),
        ]);
    }
}

/// `$variant($binding) =>`
pub open spec fn arm(variant: Seq<char>, binding: Seq<char>) -> Seq<Token> {
    seq![
        Token::Ident(variant),
        Token::Open(Bracket::Round),
        Token::Ident(binding),
        Token::Close(Bracket::Round),
        Token::Punct('=', Gap::Joint),
        Token::Punct('>', Gap::Alone),
    ]
}

/// `$name::$variant`
pub open spec fn qualified(name: Seq<char>, variant: Seq<char>) -> Seq<Token> {
    seq![
        Token::Ident(name),
        Token::Punct(':', Gap::Joint),
        Token::Punct(':', Gap::Alone),
        Token::Ident(variant),
    ]
}

/// `($inner)`
pub open spec fn parenthesized(inner: Seq<Token>) -> Seq<Token> {
    seq![Token::Open(Bracket::Round)] + inner + seq![Token::Close(Bracket::Round)]
}

/// `match $expression { $arms }`
pub open spec fn matching(expression: Seq<Token>, arms: Seq<Token>) -> Seq<Token> {
    seq![Token::Ident("match"@)] + expression + (seq![Token::Open(Bracket::Curly)] + arms + seq![
        Token::Close(Bracket::Curly),
    ])
}

/// A `Result` becomes a tagged union by a match: `Ok(ok) => Name::Ok(c)` with what the
/// type for `Ok` makes of `ok`, however it is passed, or `Name::Ok` where `Ok` takes up
/// no memory, and `Err(err) => Name::Err(d)` with what the type for `Err` makes of `err`.
#[verifier::spinoff_prover]
pub proof fn law_rust_to_union_tokens<O: BridgeableType + ?Sized, E: BridgeableType + ?Sized>(
    result: &BuiltInResult<O, E>,
    expression: Seq<Token>,
    path: &Path,
    types: &TypeDeclarations,
    span: Span,
)
    requires
        result.spec_is_custom_result_type(),
    ensures
        ({
            let name = "Result"@ + result.ok_ty.spec_to_alpha_numeric_underscore_name(types)
                + "And"@ + result.err_ty.spec_to_alpha_numeric_underscore_name(types);
            let ok = result.ok_ty.spec_convert_rust_expression_to_ffi_type(
                seq![Token::Ident("ok"@)],
                path,
                types,
                span,
            );
            let err = result.err_ty.spec_convert_rust_expression_to_ffi_type(
                seq![Token::Ident("err"@)],
                path,
                types,
                span,
            );
            let comma = seq![Token::Punct(',', Gap::Alone)];
            let err_arm = arm("Err"@, "err"@) + qualified(name, "Err"@) + parenthesized(err)
                + comma;
            let made = result.spec_convert_rust_expression_to_ffi_type(
                expression,
                path,
                types,
                span,
            );
            &&& !result.ok_ty.spec_can_be_encoded_with_zero_bytes() ==> made == matching(
                expression,
                arm("Ok"@, "ok"@) + qualified(name, "Ok"@) + parenthesized(ok) + comma + err_arm,
            )
            &&& result.ok_ty.spec_can_be_encoded_with_zero_bytes() ==> made == matching(
                expression,
                arm("Ok"@, "ok"@) + qualified(name, "Ok"@) + comma + err_arm,
            )
        }),
{
    let name = "Result"@ + result.ok_ty.spec_to_alpha_numeric_underscore_name(types) + "And"@
        + result.err_ty.spec_to_alpha_numeric_underscore_name(types);
    let ok = result.ok_ty.spec_convert_rust_expression_to_ffi_type(
        seq![Token::Ident("ok"@)],
        path,
        types,
        span,
    );
    let err = result.err_ty.spec_convert_rust_expression_to_ffi_type(
        seq![Token::Ident("err"@)],
        path,
        types,
        span,
    );
    let comma = seq![Token::Punct(',', Gap::Alone)];
    let err_arm = arm("Err"@, "err"@) + qualified(name, "Err"@) + parenthesized(err) + comma;
    let made = result.spec_convert_rust_expression_to_ffi_type(expression, path, types, span);
    assert(tokens::ident(tokens::itself(), "ok"@) =~= seq![Token::Ident("ok"@)]);
    assert(tokens::ident(tokens::itself(), "err"@) =~= seq![Token::Ident("err"@)]);
    if result.ok_ty.spec_can_be_encoded_with_zero_bytes() {
        assert(made =~= matching(
            expression,
            arm("Ok"@, "ok"@) + qualified(name, "Ok"@) + comma + err_arm,
        ));
    } else {
        assert(made =~= matching(
            expression,
            arm("Ok"@, "ok"@) + qualified(name, "Ok"@) + parenthesized(ok) + comma + err_arm,
        ));
    }
}

/// Where `Ok` takes up no memory and there is no tagged union, a `Result` becomes a
/// pointer: null for `Ok`, and what the type for `Err` makes of `err`.
pub proof fn law_rust_to_error_pointer_tokens<
    O: BridgeableType + ?Sized,
    E: BridgeableType + ?Sized,
>(
    result: &BuiltInResult<O, E>,
    expression: Seq<Token>,
    path: &Path,
    types: &TypeDeclarations,
    span: Span,
)
    requires
        !result.spec_is_custom_result_type(),
        result.ok_ty.spec_can_be_encoded_with_zero_bytes(),
    ensures
        ({
            let err = result.err_ty.spec_convert_rust_expression_to_ffi_type(
                seq![Token::Ident("err"@)],
                path,
                types,
                span,
            );
            result.spec_convert_rust_expression_to_ffi_type(expression, path, types, span)
                == matching(
                expression,
                arm("Ok"@, "ok"@) + qualified("std"@, "ptr"@) + seq![
                    Token::Punct(':', Gap::Joint),
                    Token::Punct(':', Gap::Alone),
                    Token::Ident("null_mut"@),
                    Token::Open(Bracket::Round),
                    Token::Close(Bracket::Round),
                    Token::Punct(',', Gap::Alone),
                ] + arm("Err"@, "err"@) + err,
            )
        }),
{
    let err = result.err_ty.spec_convert_rust_expression_to_ffi_type(
        seq![Token::Ident("err"@)],
        path,
        types,
        span,
    );
    assert(tokens::ident(tokens::itself(), "err"@) =~= seq![Token::Ident("err"@)]);
    assert(result.spec_convert_rust_expression_to_ffi_type(expression, path, types, span)
        =~= matching(
        expression,
        arm("Ok"@, "ok"@) + qualified("std"@, "ptr"@) + seq![
            Token::Punct(':', Gap::Joint),
            Token::Punct(':', Gap::Alone),
            Token::Ident("null_mut"@),
            Token::Open(Bracket::Round),
            Token::Close(Bracket::Round),
            Token::Punct(',', Gap::Alone),
        ] + arm("Err"@, "err"@) + err,
    ));
}

/// `{ $path::result::ResultPtrAndPtr { is_ok: $flag, ok_or_err: $value as *mut
/// std::ffi::c_void } }`
pub open spec fn flag_and_pointer(
    path: &Path,
    flag: Seq<char>,
    value: Seq<Token>,
) -> Seq<Token> {
    seq![Token::Open(Bracket::Curly)] + tokens::path_tokens(*path) + seq![
        Token::Punct(':', Gap::Joint),
        Token::Punct(':', Gap::Alone),
        Token::Ident("result"@),
        Token::Punct(':', Gap::Joint),
        Token::Punct(':', Gap::Alone),
        Token::Ident("ResultPtrAndPtr"@),
        Token::Open(Bracket::Curly),
        Token::Ident("is_ok"@),
        Token::Punct(':', Gap::Alone),
        Token::Ident(flag),
        Token::Punct(',', Gap::Alone),
        Token::Ident("ok_or_err"@),
        Token::Punct(':', Gap::Alone),
    ] + value + seq![
        Token::Ident("as"@),
        Token::Punct('*', Gap::Alone),
        Token::Ident("mut"@),
        Token::Ident("std"@),
        Token::Punct(':', Gap::Joint),
        Token::Punct(':', Gap::Alone),
        Token::Ident("ffi"@),
        Token::Punct(':', Gap::Joint),
        Token::Punct(':', Gap::Alone),
        Token::Ident("c_void"@),
        Token::Close(Bracket::Curly),
        Token::Close(Bracket::Curly),
    ]
}

/// Any other `Result` becomes a flag and a pointer: `true` with what the type for `Ok`
/// makes of `ok`, or `false` with what the type for `Err` makes of `err`.
#[verifier::spinoff_prover]
pub proof fn law_rust_to_flag_and_pointer_tokens<
    O: BridgeableType + ?Sized,
    E: BridgeableType + ?Sized,
>(
    result: &BuiltInResult<O, E>,
    expression: Seq<Token>,
    path: &Path,
    types: &TypeDeclarations,
    span: Span,
)
    requires
        !result.spec_is_custom_result_type(),
        !result.ok_ty.spec_can_be_encoded_with_zero_bytes(),
    ensures
        ({
            let ok = result.ok_ty.spec_convert_rust_expression_to_ffi_type(
                seq![Token::Ident("ok"@)],
                path,
                types,
                span,
            );
            let err = result.err_ty.spec_convert_rust_expression_to_ffi_type(
                seq![Token::Ident("err"@)],
                path,
                types,
                span,
            );
            result.spec_convert_rust_expression_to_ffi_type(expression, path, types, span)
                == matching(
                expression,
                arm("Ok"@, "ok"@) + flag_and_pointer(path, "true"@, ok) + arm("Err"@, "err"@)
                    + flag_and_pointer(path, "false"@, err),
            )
        }),
{
    let ok = result.ok_ty.spec_convert_rust_expression_to_ffi_type(
        seq![Token::Ident("ok"@)],
        path,
        types,
        span,
    );
    let err = result.err_ty.spec_convert_rust_expression_to_ffi_type(
        seq![Token::Ident("err"@)],
        path,
        types,
        span,
    );
    assert(tokens::ident(tokens::itself(), "ok"@) =~= seq![Token::Ident("ok"@)]);
    assert(tokens::ident(tokens::itself(), "err"@) =~= seq![Token::Ident("err"@)]);
    let p = tokens::path_tokens(*path);
    lemma_block(path, "true"@, ok);
    lemma_block(path, "false"@, err);
    assert(result.spec_convert_rust_expression_to_ffi_type(expression, path, types, span)
        =~= matching(
        expression,
        arm("Ok"@, "ok"@) + flag_and_pointer(path, "true"@, ok) + arm("Err"@, "err"@)
            + flag_and_pointer(path, "false"@, err),
    ));
}

proof fn lemma_block(path: &Path, flag: Seq<char>, value: Seq<Token>)
    ensures
        crate::bridgeable_result_rust::flag_and_pointer_block(
            tokens::itself(),
            tokens::path_tokens(*path),
            flag,
            value,
        ) == flag_and_pointer(path, flag, value),
{
    assert(crate::bridgeable_result_rust::flag_and_pointer_block(
        tokens::itself(),
        tokens::path_tokens(*path),
        flag,
        value,
    ) =~= flag_and_pointer(path, flag, value));
}

/// `{ std::result::Result::$variant($value) }`
pub open spec fn std_variant(variant: Seq<char>, value: Seq<Token>) -> Seq<Token> {
    seq![
        Token::Open(Bracket::Curly),
        Token::Ident("std"@),
        Token::Punct(':', Gap::Joint),
        Token::Punct(':', Gap::Alone),
        Token::Ident("result"@),
        Token::Punct(':', Gap::Joint),
        Token::Punct(':', Gap::Alone),
        Token::Ident("Result"@),
        Token::Punct(':', Gap::Joint),
        Token::Punct(':', Gap::Alone),
        Token::Ident(variant),
        Token::Open(Bracket::Round),
    ] + value + seq![Token::Close(Bracket::Round), Token::Close(Bracket::Curly)]
}

/// A flag and a pointer become a `Result` by the flag: `Ok` of what the type for `Ok`
/// makes of the expression if it is set, and else `Err` of what the type for `Err` makes
/// of it.
pub proof fn law_ffi_to_rust_tokens<O: BridgeableType + ?Sized, E: BridgeableType + ?Sized>(
    result: &BuiltInResult<O, E>,
    expression: Seq<Token>,
    path: &Path,
    types: &TypeDeclarations,
)
    ensures
        result.spec_convert_ffi_value_to_rust_value(expression, path, types) == seq![
            Token::Ident("if"@),
        ] + expression + seq![Token::Punct('.', Gap::Alone), Token::Ident("is_ok"@)] + std_variant(
            "Ok"@,
            result.ok_ty.spec_convert_ffi_result_ok_value_to_rust_value(expression, path, types),
        ) + seq![Token::Ident("else"@)] + std_variant(
            "Err"@,
            result.err_ty.spec_convert_ffi_result_err_value_to_rust_value(expression, path, types),
        ),
{
    let ok = result.ok_ty.spec_convert_ffi_result_ok_value_to_rust_value(expression, path, types);
    let err = result.err_ty.spec_convert_ffi_result_err_value_to_rust_value(
        expression,
        path,
        types,
    );
    assert(result.spec_convert_ffi_value_to_rust_value(expression, path, types) =~= seq![
        Token::Ident("if"@),
    ] + expression + seq![Token::Punct('.', Gap::Alone), Token::Ident("is_ok"@)] + std_variant(
        "Ok"@,
        ok,
    ) + seq![Token::Ident("else"@)] + std_variant("Err"@, err));
}

/// `#[$name($argument)]`
pub open spec fn attributed(name: Seq<char>, argument: Seq<char>) -> Seq<Token> {
    seq![
        Token::Punct('#', Gap::Alone),
        Token::Open(Bracket::Square),
        Token::Ident(name),
        Token::Open(Bracket::Round),
        Token::Ident(argument),
        Token::Close(Bracket::Round),
        Token::Close(Bracket::Square),
    ]
}

/// The tagged union is defined in Rust as an enum with the layout of C. Its variant
/// `Ok` holds the type in which the value of `Ok` crosses the bridge, however it is
/// passed, or nothing where it takes up no memory, and `Err` holds that for `Err`. The
/// definitions that `Ok` needs follow, and then those that `Err` needs.
#[verifier::spinoff_prover]
pub proof fn law_rust_definition_tokens<O: BridgeableType + ?Sized, E: BridgeableType + ?Sized>(
    result: &BuiltInResult<O, E>,
    path: &Path,
    types: &TypeDeclarations,
)
    requires
        result.spec_is_custom_result_type(),
    ensures
        ({
            let name = "Result"@ + result.ok_ty.spec_to_alpha_numeric_underscore_name(types)
                + "And"@ + result.err_ty.spec_to_alpha_numeric_underscore_name(types);
            let ok = result.ok_ty.spec_to_ffi_compatible_rust_type(path, types);
            let err = result.err_ty.spec_to_ffi_compatible_rust_type(path, types);
            let comma = seq![Token::Punct(',', Gap::Alone)];
            let start = attributed("repr"@, "C"@) + seq![
                Token::Ident("pub"@),
                Token::Ident("enum"@),
                Token::Ident(name),
                Token::Open(Bracket::Curly),
            ] + attributed("allow"@, "unused"@) + seq![Token::Ident("Ok"@)];
            let end = comma + attributed("allow"@, "unused"@) + seq![Token::Ident("Err"@)]
                + parenthesized(err) + comma + seq![Token::Close(Bracket::Curly)];
            let all = result.spec_generate_custom_rust_ffi_types(path, types);
            let rest = match (
                result.ok_ty.spec_generate_custom_rust_ffi_types(path, types),
                result.err_ty.spec_generate_custom_rust_ffi_types(path, types),
            ) {
                (Some(o), Some(e)) => o + e,
                (Some(o), None) => o,
                (None, Some(e)) => e,
                (None, None) => Seq::empty(),
            };
            &&& all is Some
            &&& !result.ok_ty.spec_can_be_encoded_with_zero_bytes() ==> all->0 == seq![
                start + parenthesized(ok) + end,
            ] + rest
            &&& result.ok_ty.spec_can_be_encoded_with_zero_bytes() ==> all->0 == seq![start + end]
                + rest
        }),
{
    let name = "Result"@ + result.ok_ty.spec_to_alpha_numeric_underscore_name(types) + "And"@
        + result.err_ty.spec_to_alpha_numeric_underscore_name(types);
    let ok = result.ok_ty.spec_to_ffi_compatible_rust_type(path, types);
    let err = result.err_ty.spec_to_ffi_compatible_rust_type(path, types);
    let comma = seq![Token::Punct(',', Gap::Alone)];
    let start = attributed("repr"@, "C"@) + seq![
        Token::Ident("pub"@),
        Token::Ident("enum"@),
        Token::Ident(name),
        Token::Open(Bracket::Curly),
    ] + attributed("allow"@, "unused"@) + seq![Token::Ident("Ok"@)];
    let end = comma + attributed("allow"@, "unused"@) + seq![Token::Ident("Err"@)]
        + parenthesized(err) + comma + seq![Token::Close(Bracket::Curly)];
    let all = result.spec_generate_custom_rust_ffi_types(path, types)->0;
    let rest = match (
        result.ok_ty.spec_generate_custom_rust_ffi_types(path, types),
        result.err_ty.spec_generate_custom_rust_ffi_types(path, types),
    ) {
        (Some(o), Some(e)) => o + e,
        (Some(o), None) => o,
        (None, Some(e)) => e,
        (None, None) => Seq::empty(),
    };
    let definition = result.rust_definition(tokens::itself(), ok, err, types);
    if result.ok_ty.spec_can_be_encoded_with_zero_bytes() {
        assert(definition =~= start + end);
    } else {
        assert(definition =~= start + parenthesized(ok) + end);
    }
    assert(all =~= seq![definition] + rest);
}

/// Rust, C and Swift agree on whether a tagged union holds something for `Ok`, and what
/// goes in is what comes out: if and only if the Rust enum declares a payload for `Ok`,
/// the conversion makes one, C has the field `ok` and Swift returns what is in it.
pub proof fn law_payloads_agree<O: BridgeableType + ?Sized, E: BridgeableType + ?Sized>(
    result: &BuiltInResult<O, E>,
    expression: Seq<Token>,
    call: Seq<char>,
    lang: HostLang,
    path: &Path,
    types: &TypeDeclarations,
    span: Span,
) -> (parts: (Seq<Token>, Seq<Token>, Seq<char>, Seq<char>))
    requires
        result.spec_is_custom_result_type(),
    ensures
        ({
            let (declared, made, field, returned) = parts;
            let pos = TypePosition::FnReturn(lang);
            let name = "Result"@ + result.ok_ty.spec_to_alpha_numeric_underscore_name(types)
                + "And"@ + result.err_ty.spec_to_alpha_numeric_underscore_name(types);
            let c = "__swift_bridge__$"@ + name;
            let comma = seq![Token::Punct(',', Gap::Alone)];
            let in_enum = attributed("allow"@, "unused"@) + seq![Token::Ident("Ok"@)] + declared
                + comma;
            let in_match = arm("Ok"@, "ok"@) + qualified(name, "Ok"@) + made + comma;
            let in_union = "union "@ + (c + "$Fields"@) + " {"@ + field
                + result.err_ty.spec_to_c_type(types) + " err;};"@;
            let in_switch = (c + "$ResultOk"@) + ": return"@ + returned + " case "@;
            &&& tokens_occur(
                in_enum,
                result.spec_generate_custom_rust_ffi_types(path, types)->0[0],
            )
            &&& tokens_occur(
                in_match,
                result.spec_convert_rust_expression_to_ffi_type(expression, path, types, span),
            )
            &&& text::occurs(in_union, result.spec_generate_custom_c_ffi_types(types)->0.text)
            &&& text::occurs(
                in_switch,
                result.spec_convert_ffi_value_to_swift_value(call, pos, types, path),
            )
            &&& if result.ok_ty.spec_can_be_encoded_with_zero_bytes() {
                declared.len() == 0 && made.len() == 0 && field.len() == 0 && returned.len() == 0
            } else {
                &&& declared == parenthesized(
                    result.ok_ty.spec_to_ffi_compatible_rust_type(path, types),
                )
                &&& made == parenthesized(
                    result.ok_ty.spec_convert_rust_expression_to_ffi_type(
                        seq![Token::Ident("ok"@)],
                        path,
                        types,
                        span,
                    ),
                )
                &&& field == result.ok_ty.spec_to_c_type(types) + " ok; "@
                &&& returned == " "@ + result.ok_ty.spec_convert_ffi_expression_to_swift_type(
                    "val.payload.ok"@,
                    pos,
                    types,
                    path,
                )
            }
        }),
{
    let declared = lemma_declared_payload(result, path, types);
    let made = lemma_made_payload(result, expression, path, types, span);
    let field = lemma_payload_field(result, types);
    let returned = lemma_returned_payload(result, call, lang, types, path);
    (declared, made, field, returned)
}

proof fn lemma_declared_payload<O: BridgeableType + ?Sized, E: BridgeableType + ?Sized>(
    result: &BuiltInResult<O, E>,
    path: &Path,
    types: &TypeDeclarations,
) -> (declared: Seq<Token>)
    requires
        result.spec_is_custom_result_type(),
    ensures
        tokens_occur(
            attributed("allow"@, "unused"@) + seq![Token::Ident("Ok"@)] + declared + seq![
                Token::Punct(',', Gap::Alone),
            ],
            result.spec_generate_custom_rust_ffi_types(path, types)->0[0],
        ),
        result.ok_ty.spec_can_be_encoded_with_zero_bytes() ==> declared.len() == 0,
        !result.ok_ty.spec_can_be_encoded_with_zero_bytes() ==> declared == parenthesized(
            result.ok_ty.spec_to_ffi_compatible_rust_type(path, types),
        ),
{
    law_rust_definition_tokens(result, path, types);
    let name = "Result"@ + result.ok_ty.spec_to_alpha_numeric_underscore_name(types) + "And"@
        + result.err_ty.spec_to_alpha_numeric_underscore_name(types);
    let zero_bytes = result.ok_ty.spec_can_be_encoded_with_zero_bytes();
    let comma = seq![Token::Punct(',', Gap::Alone)];
    let declared = if zero_bytes {
        Seq::<Token>::empty()
    } else {
        parenthesized(result.ok_ty.spec_to_ffi_compatible_rust_type(path, types))
    };
    let part = attributed("allow"@, "unused"@) + seq![Token::Ident("Ok"@)] + declared + comma;
    let before = attributed("repr"@, "C"@) + seq![
        Token::Ident("pub"@),
        Token::Ident("enum"@),
        Token::Ident(name),
        Token::Open(Bracket::Curly),
    ];
    let behind = attributed("allow"@, "unused"@) + seq![Token::Ident("Err"@)] + parenthesized(
        result.err_ty.spec_to_ffi_compatible_rust_type(path, types),
    ) + comma + seq![Token::Close(Bracket::Curly)];
    assert(result.spec_generate_custom_rust_ffi_types(path, types)->0[0] =~= before + part
        + behind);
    declared
}

proof fn lemma_made_payload<O: BridgeableType + ?Sized, E: BridgeableType + ?Sized>(
    result: &BuiltInResult<O, E>,
    expression: Seq<Token>,
    path: &Path,
    types: &TypeDeclarations,
    span: Span,
) -> (made: Seq<Token>)
    requires
        result.spec_is_custom_result_type(),
    ensures
        tokens_occur(
            arm("Ok"@, "ok"@) + qualified(
                "Result"@ + result.ok_ty.spec_to_alpha_numeric_underscore_name(types) + "And"@
                    + result.err_ty.spec_to_alpha_numeric_underscore_name(types),
                "Ok"@,
            ) + made + seq![Token::Punct(',', Gap::Alone)],
            result.spec_convert_rust_expression_to_ffi_type(expression, path, types, span),
        ),
        result.ok_ty.spec_can_be_encoded_with_zero_bytes() ==> made.len() == 0,
        !result.ok_ty.spec_can_be_encoded_with_zero_bytes() ==> made == parenthesized(
            result.ok_ty.spec_convert_rust_expression_to_ffi_type(
                seq![Token::Ident("ok"@)],
                path,
                types,
                span,
            ),
        ),
{
    law_rust_to_union_tokens(result, expression, path, types, span);
    let name = "Result"@ + result.ok_ty.spec_to_alpha_numeric_underscore_name(types) + "And"@
        + result.err_ty.spec_to_alpha_numeric_underscore_name(types);
    let comma = seq![Token::Punct(',', Gap::Alone)];
    let made = if result.ok_ty.spec_can_be_encoded_with_zero_bytes() {
        Seq::<Token>::empty()
    } else {
        parenthesized(
            result.ok_ty.spec_convert_rust_expression_to_ffi_type(
                seq![Token::Ident("ok"@)],
                path,
                types,
                span,
            ),
        )
    };
    let err = result.err_ty.spec_convert_rust_expression_to_ffi_type(
        seq![Token::Ident("err"@)],
        path,
        types,
        span,
    );
    let part = arm("Ok"@, "ok"@) + qualified(name, "Ok"@) + made + comma;
    let before = seq![Token::Ident("match"@)] + expression + seq![Token::Open(Bracket::Curly)];
    let behind = arm("Err"@, "err"@) + qualified(name, "Err"@) + parenthesized(err) + comma + seq![
        Token::Close(Bracket::Curly),
    ];
    assert(result.spec_convert_rust_expression_to_ffi_type(expression, path, types, span) =~= before
        + part + behind);
    made
}

proof fn lemma_payload_field<O: BridgeableType + ?Sized, E: BridgeableType + ?Sized>(
    result: &BuiltInResult<O, E>,
    types: &TypeDeclarations,
) -> (field: Seq<char>)
    requires
        result.spec_is_custom_result_type(),
    ensures
        ({
            let c = "__swift_bridge__$"@ + ("Result"@
                + result.ok_ty.spec_to_alpha_numeric_underscore_name(types) + "And"@
                + result.err_ty.spec_to_alpha_numeric_underscore_name(types));
            text::occurs(
                "union "@ + (c + "$Fields"@) + " {"@ + field + result.err_ty.spec_to_c_type(types)
                    + " err;};"@,
                result.spec_generate_custom_c_ffi_types(types)->0.text,
            )
        }),
        result.ok_ty.spec_can_be_encoded_with_zero_bytes() ==> field.len() == 0,
        !result.ok_ty.spec_can_be_encoded_with_zero_bytes() ==> field
            == result.ok_ty.spec_to_c_type(types) + " ok; "@,
{
    law_c_definition_text(result, types);
    let c = "__swift_bridge__$"@ + ("Result"@
        + result.ok_ty.spec_to_alpha_numeric_underscore_name(types) + "And"@
        + result.err_ty.spec_to_alpha_numeric_underscore_name(types));
    let field = if result.ok_ty.spec_can_be_encoded_with_zero_bytes() {
        Seq::<char>::empty()
    } else {
        result.ok_ty.spec_to_c_type(types) + " ok; "@
    };
    let part = "union "@ + (c + "$Fields"@) + " {"@ + field + result.err_ty.spec_to_c_type(types)
        + " err;};"@;
    let before = "typedef enum "@ + (c + "$Tag"@) + " {"@ + (c + "$ResultOk"@) + ", "@ + (c
        + "$ResultErr"@) + "} "@ + (c + "$Tag"@) + ";\n"@;
    let behind = "\ntypedef struct "@ + c + "{"@ + (c + "$Tag"@) + " tag; union "@ + (c
        + "$Fields"@) + " payload;} "@ + c + ";"@;
    assert(result.spec_generate_custom_c_ffi_types(types)->0.text =~= before + part + behind);
    field
}

proof fn lemma_returned_payload<O: BridgeableType + ?Sized, E: BridgeableType + ?Sized>(
    result: &BuiltInResult<O, E>,
    call: Seq<char>,
    lang: HostLang,
    types: &TypeDeclarations,
    path: &Path,
) -> (returned: Seq<char>)
    requires
        result.spec_is_custom_result_type(),
    ensures
        ({
            let c = "__swift_bridge__$"@ + ("Result"@
                + result.ok_ty.spec_to_alpha_numeric_underscore_name(types) + "And"@
                + result.err_ty.spec_to_alpha_numeric_underscore_name(types));
            text::occurs(
                (c + "$ResultOk"@) + ": return"@ + returned + " case "@,
                result.spec_convert_ffi_value_to_swift_value(
                    call,
                    TypePosition::FnReturn(lang),
                    types,
                    path,
                ),
            )
        }),
        result.ok_ty.spec_can_be_encoded_with_zero_bytes() ==> returned.len() == 0,
        !result.ok_ty.spec_can_be_encoded_with_zero_bytes() ==> returned == " "@
            + result.ok_ty.spec_convert_ffi_expression_to_swift_type(
            "val.payload.ok"@,
            TypePosition::FnReturn(lang),
            types,
            path,
        ),
{
    law_returned_union_text(result, call, lang, types, path);
    let pos = TypePosition::FnReturn(lang);
    let c = "__swift_bridge__$"@ + ("Result"@
        + result.ok_ty.spec_to_alpha_numeric_underscore_name(types) + "And"@
        + result.err_ty.spec_to_alpha_numeric_underscore_name(types));
    let tag = c + "$ResultOk"@;
    let returned = if result.ok_ty.spec_can_be_encoded_with_zero_bytes() {
        Seq::<char>::empty()
    } else {
        " "@ + result.ok_ty.spec_convert_ffi_expression_to_swift_type(
            "val.payload.ok"@,
            pos,
            types,
            path,
        )
    };
    let thrown = result.err_ty.spec_convert_ffi_expression_to_swift_type(
        "val.payload.err"@,
        pos,
        types,
        path,
    );
    let before = "try { let val = "@ + call + "; switch val.tag { case "@;
    let end = " case "@ + (c + "$ResultErr"@) + ": throw "@ + thrown
        + " default: fatalError() } }()"@;
    let swift = result.spec_convert_ffi_value_to_swift_value(call, pos, types, path);
    lemma_split_end(
        " case "@,
        c + "$ResultErr"@,
        ": throw "@,
        thrown,
        " default: fatalError() } }()"@,
    );
    assert(swift == before + tag + ": return"@ + returned + end) by {
        if result.ok_ty.spec_can_be_encoded_with_zero_bytes() {
            assert(before + tag + ": return"@ + returned =~= before + tag + ": return"@);
        } else {
            lemma_joined(before + tag + ": return"@, " "@, returned.skip(" "@.len() as int));
            assert(returned.skip(" "@.len() as int)
                =~= result.ok_ty.spec_convert_ffi_expression_to_swift_type(
                "val.payload.ok"@,
                pos,
                types,
                path,
            ));
        }
    }
    let behind = (c + "$ResultErr"@) + ": throw "@ + thrown + " default: fatalError() } }()"@;
    lemma_in_the_middle(before, tag, ": return"@, returned, " case "@, behind);
    returned
}

proof fn lemma_joined(a: Seq<char>, b: Seq<char>, c: Seq<char>)
    ensures
        a + b + c == a + (b + c),
{
    assert(a + b + c =~= a + (b + c));
}

proof fn lemma_split_end(a: Seq<char>, b: Seq<char>, c: Seq<char>, d: Seq<char>, e: Seq<char>)
    ensures
        a + b + c + d + e == a + (b + c + d + e),
{
    assert(a + b + c + d + e =~= a + (b + c + d + e));
}

proof fn lemma_in_the_middle(
    before: Seq<char>,
    a: Seq<char>,
    b: Seq<char>,
    c: Seq<char>,
    d: Seq<char>,
    behind: Seq<char>,
)
    ensures
        text::occurs(a + b + c + d, before + a + b + c + (d + behind)),
{
    assert(before + a + b + c + (d + behind) =~= before + (a + b + c + d) + behind);
}

/// `part` stands somewhere in `whole`.
pub open spec fn tokens_occur(part: Seq<Token>, whole: Seq<Token>) -> bool {
    exists|before: Seq<Token>, behind: Seq<Token>| whole == #[trigger] (before + part + behind)
}

} // verus!

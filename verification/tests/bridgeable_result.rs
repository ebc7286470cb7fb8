use proc_macro2::{Span, TokenStream, TokenTree};
use swift_bridge_ir::bridgeable_result::{split_ok_and_err, BuiltInResult};
use swift_bridge_ir::bridgeable_result_rust::flag_and_values_to_rust_value;
use swift_bridge_ir::bridged_type::{Aspect, BridgeableType, NamedType, TypePosition};
use swift_bridge_ir::built_in::BridgedType;
use swift_bridge_ir::declarations::{HostLang, TypeDeclarations};
use swift_bridge_ir::std_lib_type::StdLibType;
use swift_bridge_ir::tokens::is_identifier;
use swift_bridge_ir::type_description::{TextTemplate, TokenTemplate, TypeDescription};
use syn::Path;

fn tokens(source: &str) -> TokenStream {
    source.parse().unwrap()
}

fn path() -> Path {
    syn::parse_str("swift_bridge").unwrap()
}

fn types() -> TypeDeclarations {
    TypeDeclarations::default()
}

fn text_template(parts: &[&str]) -> TextTemplate {
    TextTemplate { parts: parts.iter().map(|part| part.to_string()).collect() }
}

fn token_template(parts: &[&str]) -> TokenTemplate {
    TokenTemplate { parts: parts.iter().map(|part| tokens(part)).collect() }
}

fn number() -> TypeDescription {
    TypeDescription {
        name: "U32".to_string(),
        rust_type: tokens("u32"),
        swift_type: "UInt32".to_string(),
        c_type: "uint32_t".to_string(),
        ffi_type: tokens("u32"),
        is_null: false,
        is_passed_via_pointer: false,
        only_value: None,
        rust_to_ffi: token_template(&["", ""]),
        ffi_ok_to_rust: token_template(&["", ".payload.ok"]),
        ffi_err_to_rust: token_template(&["", ".payload.err"]),
        ffi_to_swift: text_template(&["", ""]),
        swift_to_ffi: text_template(&["", ""]),
        rust_definitions: vec![],
        c_definition: None,
    }
}

fn class(name: &str) -> TypeDescription {
    TypeDescription {
        name: name.to_string(),
        rust_type: tokens(&format!("super::{name}")),
        swift_type: name.to_string(),
        c_type: "void*".to_string(),
        ffi_type: tokens(&format!("*mut super::{name}")),
        is_passed_via_pointer: true,
        rust_to_ffi: token_template(&["Box::into_raw", ""]),
        ffi_ok_to_rust: token_template(&["*ok", ".ok_or_err"]),
        ffi_err_to_rust: token_template(&["*err", ".ok_or_err"]),
        ffi_to_swift: text_template(&[&format!("{name}(ptr: "), ")"]),
        swift_to_ffi: text_template(&["{", ".isOwned = false; return ", ".ptr!}()"]),
        ..number()
    }
}

fn shared_struct(name: &str) -> TypeDescription {
    TypeDescription {
        name: name.to_string(),
        rust_type: tokens(name),
        swift_type: name.to_string(),
        c_type: format!("struct __swift_bridge__${name}"),
        ffi_type: tokens(&format!("__swift_bridge__{name}")),
        rust_to_ffi: token_template(&["", ".into_ffi_repr()"]),
        ffi_to_swift: text_template(&["", ".intoSwiftRepr()"]),
        rust_definitions: vec![tokens(&format!("struct {name}Repr;")), tokens("struct Field;")],
        c_definition: Some(format!("typedef struct {name} {name};")),
        ..number()
    }
}

fn null() -> TypeDescription {
    TypeDescription {
        name: "Void".to_string(),
        rust_type: tokens("()"),
        swift_type: "()".to_string(),
        c_type: "void".to_string(),
        ffi_type: tokens("()"),
        is_null: true,
        only_value: Some("()".to_string()),
        ..number()
    }
}

fn unit_struct() -> TypeDescription {
    TypeDescription {
        name: "Unit".to_string(),
        swift_type: "Unit".to_string(),
        c_type: "struct __swift_bridge__$Unit".to_string(),
        is_null: false,
        only_value: Some("Unit()".to_string()),
        ..null()
    }
}

fn result(ok: TypeDescription, err: TypeDescription) -> BuiltInResult<TypeDescription, TypeDescription> {
    BuiltInResult { ok_ty: Box::new(ok), err_ty: Box::new(err) }
}

fn same_tokens(actual: TokenStream, expected: &str) {
    assert_eq!(actual.to_string(), tokens(expected).to_string());
}

/// Verify that we can parse a `Result<(), ()>`
#[test]
fn result_from_null_type() {
    let tokens = tokens("Result<(), ()>").to_string();

    let result =
        BuiltInResult::<StdLibType, StdLibType>::from_str_tokens(&tokens, &TypeDeclarations::default())
            .unwrap();

    assert!(result.ok_ty.is_null());
    assert!(result.err_ty.is_null());
}

#[test]
fn result_from_unknown_type_is_none() {
    let types = types();
    assert!(BuiltInResult::<StdLibType, StdLibType>::from_str_tokens("Result < () , Foo >", &types).is_none());
    assert!(BuiltInResult::<StdLibType, StdLibType>::from_str_tokens("Result < Foo , () >", &types).is_none());
    assert!(BuiltInResult::<StdLibType, StdLibType>::from_str_tokens("Result < () >", &types).is_none());
    assert!(BuiltInResult::<StdLibType, StdLibType>::from_str_tokens("", &types).is_none());
}

#[test]
fn ok_and_err_names_are_split_at_the_last_comma() {
    assert_eq!(split_ok_and_err("Result < A , B >"), Some(("A", "B")));
    assert_eq!(split_ok_and_err("Result < (A , B) , C >"), Some(("(A , B)", "C")));
    assert_eq!(split_ok_and_err("Result < Vec < u8 > , String >"), Some(("Vec < u8 >", "String")));
    assert_eq!(split_ok_and_err("Result < A,\u{a0}\tB >"), Some(("A", "B")));
    assert_eq!(split_ok_and_err("A , B"), Some(("A", "B")));
    assert_eq!(split_ok_and_err("Result < A >"), None);
}

#[test]
fn only_the_outer_brackets_are_dropped() {
    assert_eq!(split_ok_and_err("Result < A , Vec < u8 > >"), Some(("A", "Vec < u8 >")));
    assert_eq!(
        split_ok_and_err("Result < Result < A , B > , C >"),
        Some(("Result < A , B >", "C"))
    );
    assert_eq!(
        split_ok_and_err("Result < A , Result < B , C > >"),
        Some(("A", "Result < B , C >"))
    );
}

#[test]
fn commas_inside_of_brackets_do_not_split() {
    assert_eq!(split_ok_and_err("Result < u8 , (u16 , u32) >"), Some(("u8", "(u16 , u32)")));
    assert_eq!(split_ok_and_err("Result < A , [(B , C) ; 2] >"), Some(("A", "[(B , C) ; 2]")));
    assert_eq!(
        split_ok_and_err("Result < fn (A) -> B , Box < dyn Fn (C , D) -> E > >"),
        Some(("fn (A) -> B", "Box < dyn Fn (C , D) -> E >"))
    );
}

#[test]
fn comparisons_are_no_brackets() {
    assert_eq!(
        split_ok_and_err("Result < A < { 1 < 2 } > , u32 >"),
        Some(("A < { 1 < 2 } >", "u32"))
    );
    assert_eq!(
        split_ok_and_err("Result < [u8 ; (1 < 2) as usize] , u32 >"),
        Some(("[u8 ; (1 < 2) as usize]", "u32"))
    );
    assert_eq!(
        split_ok_and_err("Result < u8 , Foo < { 1 > 2 } , u16 > >"),
        Some(("u8", "Foo < { 1 > 2 } , u16 >"))
    );
    assert_eq!(
        split_ok_and_err("Result < u8 , Foo < { 1 < 2 } , u16 > >"),
        Some(("u8", "Foo < { 1 < 2 } , u16 >"))
    );
    assert_eq!(
        split_ok_and_err("Result < u8 , [(u8 , u16) ; (2 > 1) as usize] >"),
        Some(("u8", "[(u8 , u16) ; (2 > 1) as usize]"))
    );
    assert_eq!(
        split_ok_and_err("Result < Foo < { 2 > 1 } > , u32 >"),
        Some(("Foo < { 2 > 1 } >", "u32"))
    );
}

#[test]
fn the_last_comma_splits_where_no_brackets_balance() {
    assert_eq!(split_ok_and_err("Result < (A , B) >"), Some(("(A", "B)")));
    assert_eq!(split_ok_and_err("Result < A , B] >"), Some(("A", "B]")));
    assert_eq!(split_ok_and_err("Result < A , B > C >"), Some(("A", "B > C")));
    assert_eq!(split_ok_and_err("Result < A , B < C >"), Some(("A", "B < C")));
    assert_eq!(split_ok_and_err("Result < (A) >"), None);
}

const STD_LIB_TYPES: [StdLibType; 10] = [
    StdLibType::Null,
    StdLibType::U8,
    StdLibType::I8,
    StdLibType::U16,
    StdLibType::I16,
    StdLibType::U32,
    StdLibType::I32,
    StdLibType::U64,
    StdLibType::I64,
    StdLibType::Bool,
];

fn nested(string: &str) -> Option<BuiltInResult<BridgedType<StdLibType>, BridgedType<StdLibType>>> {
    BuiltInResult::from_str_tokens(string, &types())
}

#[test]
fn result_inside_of_a_result() {
    let string = "Result < Result < u8 , u16 > , u32 >";
    let result = nested(string).unwrap();
    match &*result.ok_ty {
        BridgedType::Result(inner) => {
            assert_eq!(*inner.ok_ty, StdLibType::U8);
            assert_eq!(*inner.err_ty, StdLibType::U16);
        }
        BridgedType::Other(_) => panic!("the type for Ok is a result"),
    }
    assert!(matches!(*result.err_ty, BridgedType::Other(StdLibType::U32)));
    assert!(!result.ok_ty.is_null());
    assert!(result.is_custom_result_type());
    assert_eq!(result.to_rust_type_path(&types()).to_string(), string);
    assert_eq!(
        result.to_swift_type(TypePosition::FnArg(HostLang::Rust, 0), &types(), &path()),
        "RustResult<RustResult<UInt8, UInt16>, UInt32>"
    );
    assert_eq!(
        result.to_swift_type(TypePosition::FnReturn(HostLang::Rust), &types(), &path()),
        "UInt8"
    );
}

#[test]
fn results_on_both_sides() {
    let string = "Result < Result < () , bool > , Result < i64 , () > >";
    assert_eq!(nested(string).unwrap().to_rust_type_path(&types()).to_string(), string);
    assert!(nested("Result < Result < () , Foo > , () >").is_none());
    assert!(nested("Result < Result < () , Result < () , () > > , () >").is_none());
    assert!(BuiltInResult::<BridgedType<BridgedType<StdLibType>>, BridgedType<BridgedType<StdLibType>>>::from_str_tokens(
        "Result < Result < () , Result < () , () > > , () >",
        &types(),
    )
    .is_some());
}

#[test]
fn a_bridged_type_acts_as_the_type_that_it_holds() {
    let ty = BridgedType::<StdLibType>::new_with_str("u16", &types()).unwrap();
    assert_eq!(ty.to_c_type(&types()), "uint16_t");
    assert_eq!(ty.to_alpha_numeric_underscore_name(&types()), "U16");
    let ty = BridgedType::Result(result(number(), class("B")));
    assert_eq!(ty.to_c_type(&types()), "struct __swift_bridge__$ResultU32AndB");
    same_tokens(ty.to_ffi_compatible_rust_type(&path(), &types()), "ResultU32AndB");
    assert!(ty.only_encoding().is_none());
    assert!(!ty.is_passed_via_pointer());
    assert!(!ty.can_be_encoded_with_zero_bytes());
    assert!(BridgedType::Other(null()).can_be_encoded_with_zero_bytes());
}

#[test]
fn writing_undoes_parsing() {
    for ok in STD_LIB_TYPES {
        for err in STD_LIB_TYPES {
            let string = format!("Result < {} , {} >", ok.rust_name(), err.rust_name());
            let result =
                BuiltInResult::<StdLibType, StdLibType>::from_str_tokens(&string, &types()).unwrap();
            assert_eq!(*result.ok_ty, ok);
            assert_eq!(*result.err_ty, err);
            assert_eq!(result.to_rust_type_path(&types()).to_string(), string);
        }
    }
}

#[test]
fn result_of_numbers() {
    let result = BuiltInResult::<StdLibType, StdLibType>::from_str_tokens(
        "Result < () , i32 >",
        &types(),
    )
    .unwrap();
    assert_eq!(result.to_c(&types()), "struct __swift_bridge__$ResultVoidAndI32");
    assert_eq!(
        result.generate_custom_c_ffi_types(&types()).unwrap().c_ffi_type,
        "typedef enum __swift_bridge__$ResultVoidAndI32$Tag {__swift_bridge__$ResultVoidAndI32$ResultOk, __swift_bridge__$ResultVoidAndI32$ResultErr} __swift_bridge__$ResultVoidAndI32$Tag;
union __swift_bridge__$ResultVoidAndI32$Fields {int32_t err;};
typedef struct __swift_bridge__$ResultVoidAndI32{__swift_bridge__$ResultVoidAndI32$Tag tag; union __swift_bridge__$ResultVoidAndI32$Fields payload;} __swift_bridge__$ResultVoidAndI32;"
    );
}

#[test]
fn custom_result_types() {
    assert!(!result(class("A"), class("B")).is_custom_result_type());
    assert!(!result(null(), class("B")).is_custom_result_type());
    assert!(!result(class("A"), null()).is_custom_result_type());
    assert!(!result(unit_struct(), class("B")).is_custom_result_type());
    assert!(result(number(), class("B")).is_custom_result_type());
    assert!(result(class("A"), number()).is_custom_result_type());
    assert!(result(null(), number()).is_custom_result_type());
    assert!(result(number(), null()).is_custom_result_type());
    assert!(result(null(), null()).is_custom_result_type());
    assert!(result(number(), number()).is_custom_result_type());
}

#[test]
fn names_of_the_tagged_union() {
    let result = result(number(), shared_struct("SomeStruct"));
    assert_eq!(result.custom_c_struct_name(&types()), "ResultU32AndSomeStruct");
    assert_eq!(
        result.c_ok_tag_name(&types()),
        "__swift_bridge__$ResultU32AndSomeStruct$ResultOk"
    );
    assert_eq!(
        result.c_err_tag_name(&types()),
        "__swift_bridge__$ResultU32AndSomeStruct$ResultErr"
    );
}

#[test]
fn c_types() {
    assert_eq!(result(class("A"), class("B")).to_c(&types()), "struct __private__ResultPtrAndPtr");
    assert_eq!(result(class("A"), null()).to_c(&types()), "struct __private__ResultPtrAndPtr");
    assert_eq!(result(null(), class("B")).to_c(&types()), "void*");
    assert_eq!(
        result(number(), class("B")).to_c(&types()),
        "struct __swift_bridge__$ResultU32AndB"
    );
}

#[test]
fn c_definition_of_the_tagged_union() {
    let c = result(number(), shared_struct("Failure")).generate_custom_c_ffi_types(&types()).unwrap();
    assert_eq!(
        c.c_ffi_type,
        "typedef enum __swift_bridge__$ResultU32AndFailure$Tag {__swift_bridge__$ResultU32AndFailure$ResultOk, __swift_bridge__$ResultU32AndFailure$ResultErr} __swift_bridge__$ResultU32AndFailure$Tag;
union __swift_bridge__$ResultU32AndFailure$Fields {uint32_t ok; struct __swift_bridge__$Failure err;};
typedef struct __swift_bridge__$ResultU32AndFailure{__swift_bridge__$ResultU32AndFailure$Tag tag; union __swift_bridge__$ResultU32AndFailure$Fields payload;} __swift_bridge__$ResultU32AndFailure;"
    );
    assert_eq!(c.fields.len(), 1);
    assert_eq!(c.fields[0].c_ffi_type, "typedef struct Failure Failure;");
    assert!(c.fields[0].fields.is_empty());
}

#[test]
fn c_definition_without_a_field_for_ok() {
    let c = result(null(), number()).generate_custom_c_ffi_types(&types()).unwrap();
    assert_eq!(
        c.c_ffi_type,
        "typedef enum __swift_bridge__$ResultVoidAndU32$Tag {__swift_bridge__$ResultVoidAndU32$ResultOk, __swift_bridge__$ResultVoidAndU32$ResultErr} __swift_bridge__$ResultVoidAndU32$Tag;
union __swift_bridge__$ResultVoidAndU32$Fields {uint32_t err;};
typedef struct __swift_bridge__$ResultVoidAndU32{__swift_bridge__$ResultVoidAndU32$Tag tag; union __swift_bridge__$ResultVoidAndU32$Fields payload;} __swift_bridge__$ResultVoidAndU32;"
    );
    assert!(c.fields.is_empty());
}

#[test]
fn c_definitions_of_both_types_in_order() {
    let c = result(shared_struct("A"), shared_struct("B")).generate_custom_c_ffi_types(&types()).unwrap();
    assert_eq!(c.fields.len(), 2);
    assert_eq!(c.fields[0].c_ffi_type, "typedef struct A A;");
    assert_eq!(c.fields[1].c_ffi_type, "typedef struct B B;");
}

#[test]
fn results_without_a_tagged_union_have_no_definitions() {
    let result = result(class("A"), class("B"));
    assert!(result.generate_custom_c_ffi_types(&types()).is_none());
    assert!(result.generate_custom_rust_ffi_types(&path(), &types()).is_none());
}

#[test]
fn rust_types() {
    same_tokens(
        result(class("A"), class("B")).to_ffi_compatible_rust_type(&path(), &types()),
        "swift_bridge::result::ResultPtrAndPtr",
    );
    let long_path: Path = syn::parse_str("::a::b").unwrap();
    same_tokens(
        result(class("A"), class("B")).to_ffi_compatible_rust_type(&long_path, &types()),
        "::a::b::result::ResultPtrAndPtr",
    );
    same_tokens(
        result(null(), class("B")).to_ffi_compatible_rust_type(&path(), &types()),
        "*mut super::B",
    );
    same_tokens(
        result(number(), class("B")).to_ffi_compatible_rust_type(&path(), &types()),
        "ResultU32AndB",
    );
}

#[test]
fn names_with_accents() {
    let named = result(class("Größe"), number());
    same_tokens(named.to_ffi_compatible_rust_type(&path(), &types()), "ResultGrößeAndU32");
    assert!(named.has_aspect(Aspect::FfiType, &types()));
    for letter in ('\u{c0}'..='\u{ff}').filter(|c| c.is_alphabetic()) {
        let named = result(number(), class(&letter.to_string()));
        assert!(named.has_aspect(Aspect::FfiType, &types()));
        assert_eq!(
            named.to_ffi_compatible_rust_type(&path(), &types()).to_string(),
            format!("ResultU32And{letter}")
        );
    }
}

#[test]
fn names_that_are_no_identifiers() {
    for name in ["Vec<u8>", "a b", "a\u{d7}", "a\u{f7}", "a-", "\u{3b1}"] {
        let named = TypeDescription { name: name.to_string(), ..class("B") };
        let named = result(number(), named);
        assert!(!named.has_aspect(Aspect::FfiType, &types()));
        assert!(!named.has_aspect(Aspect::RustToFfi, &types()));
        assert!(!named.has_aspect(Aspect::RustDefinitions, &types()));
        assert!(named.has_aspect(Aspect::CType, &types()));
    }
    assert!(is_identifier("_1"));
    assert!(!is_identifier("1_"));
    assert!(!is_identifier(""));
}

#[test]
fn aspects_of_results() {
    let returned = TypePosition::FnReturn(HostLang::Rust);
    let handed_over = TypePosition::SwiftCallsRustAsyncOnCompleteReturnTy;
    let union = result(number(), class("B"));
    assert!(!union.has_aspect(Aspect::Name, &types()));
    assert!(!union.has_aspect(Aspect::FfiResultToRust, &types()));
    assert!(union.has_aspect(Aspect::FfiToSwift(returned), &types()));
    assert!(union.has_aspect(Aspect::FfiToSwift(TypePosition::ThrowingInit(HostLang::Rust)), &types()));
    assert!(!union.has_aspect(Aspect::FfiToSwift(TypePosition::ThrowingInit(HostLang::Swift)), &types()));
    assert!(!union.has_aspect(Aspect::FfiToSwift(TypePosition::SharedStructField), &types()));
    assert!(union.has_aspect(Aspect::SwiftType(handed_over), &types()));
    assert!(!union.has_aspect(Aspect::SwiftType(TypePosition::ThrowingInit(HostLang::Rust)), &types()));
    assert!(union.has_aspect(Aspect::SwiftToFfi(returned), &types()));
    assert!(union.can_be_handed_to_callback(returned, &types()));
    let no_error = result(number(), null());
    for aspect in [
        Aspect::RustToFfi,
        Aspect::RustDefinitions,
        Aspect::CDefinition,
        Aspect::FfiToSwift(returned),
        Aspect::SwiftType(handed_over),
    ] {
        assert!(union.has_aspect(aspect, &types()));
        assert!(!no_error.has_aspect(aspect, &types()));
    }
    assert!(no_error.has_aspect(Aspect::SwiftType(returned), &types()));
    let nested = nested("Result < Result < u8 , u16 > , u32 >").unwrap();
    assert!(!nested.has_aspect(Aspect::CType, &types()));
    assert!(!nested.can_be_handed_to_callback(returned, &types()));
    assert!(nested.has_aspect(Aspect::SwiftType(returned), &types()));
    assert!(StdLibType::Null.has_aspect(Aspect::FfiResultToRust, &types()));
    assert!(!StdLibType::U8.has_aspect(Aspect::FfiResultToRust, &types()));
}

#[test]
fn rust_type_path() {
    same_tokens(
        result(class("A"), null()).to_rust_type_path(&types()),
        "Result<super::A, ()>",
    );
    let null = BuiltInResult { ok_ty: Box::new(StdLibType::Null), err_ty: Box::new(StdLibType::Null) };
    assert_eq!(null.to_rust_type_path(&types()).to_string(), "Result < () , () >");
}

#[test]
fn rust_definitions_of_the_tagged_union() {
    let definitions = result(number(), shared_struct("Failure"))
        .generate_custom_rust_ffi_types(&path(), &types())
        .unwrap();
    assert_eq!(definitions.len(), 3);
    same_tokens(
        definitions[0].clone(),
        "#[repr(C)] pub enum ResultU32AndFailure {
            #[allow(unused)] Ok(u32),
            #[allow(unused)] Err(__swift_bridge__Failure),
        }",
    );
    same_tokens(definitions[1].clone(), "struct FailureRepr;");
    same_tokens(definitions[2].clone(), "struct Field;");
}

#[test]
fn rust_definition_without_data_for_ok() {
    let definitions =
        result(null(), number()).generate_custom_rust_ffi_types(&path(), &types()).unwrap();
    assert_eq!(definitions.len(), 1);
    same_tokens(
        definitions[0].clone(),
        "#[repr(C)] pub enum ResultVoidAndU32 { #[allow(unused)] Ok, #[allow(unused)] Err(u32), }",
    );
}

#[test]
fn rust_definitions_of_both_types_in_order() {
    let definitions = result(shared_struct("A"), shared_struct("B"))
        .generate_custom_rust_ffi_types(&path(), &types())
        .unwrap();
    assert_eq!(definitions.len(), 5);
    same_tokens(definitions[1].clone(), "struct ARepr;");
    same_tokens(definitions[3].clone(), "struct BRepr;");
}

fn rust_to_ffi(ok: TypeDescription, err: TypeDescription) -> TokenStream {
    result(ok, err).convert_rust_expression_to_ffi_type(
        &tokens("super::call(1)"),
        &path(),
        &types(),
        Span::call_site(),
    )
}

#[test]
fn rust_expression_to_flag_and_pointer() {
    same_tokens(
        rust_to_ffi(class("A"), class("B")),
        "match super::call(1) {
            Ok(ok) => {
                swift_bridge::result::ResultPtrAndPtr {
                    is_ok: true,
                    ok_or_err: Box::into_raw ok as *mut std::ffi::c_void
                }
            }
            Err(err) => {
                swift_bridge::result::ResultPtrAndPtr {
                    is_ok: false,
                    ok_or_err: Box::into_raw err as *mut std::ffi::c_void
                }
            }
        }",
    );
}

#[test]
fn rust_expression_to_error_pointer() {
    same_tokens(
        rust_to_ffi(null(), class("B")),
        "match super::call(1) { Ok(ok) => std::ptr::null_mut(), Err(err) => Box::into_raw err }",
    );
}

#[test]
fn rust_expression_to_tagged_union() {
    same_tokens(
        rust_to_ffi(number(), shared_struct("Failure")),
        "match super::call(1) {
            Ok(ok) => ResultU32AndFailure::Ok(ok),
            Err(err) => ResultU32AndFailure::Err(err.into_ffi_repr()),
        }",
    );
    same_tokens(
        rust_to_ffi(null(), number()),
        "match super::call(1) {
            Ok(ok) => ResultVoidAndU32::Ok,
            Err(err) => ResultVoidAndU32::Err(err),
        }",
    );
}

#[test]
fn flag_and_pointer_to_rust_value() {
    same_tokens(
        result(class("A"), class("B")).convert_ffi_value_to_rust_value(
            &tokens("val"),
            Span::call_site(),
            &path(),
            &types(),
        ),
        "if val.is_ok {
            std::result::Result::Ok(*ok val.ok_or_err)
        } else {
            std::result::Result::Err(*err val.ok_or_err)
        }",
    );
}

#[test]
fn rust_value_from_flag_and_values() {
    let stream = flag_and_values_to_rust_value(
        &tokens("f()"),
        &tokens("1 + 2"),
        &tokens("\"no\""),
        Span::mixed_site(),
    );
    same_tokens(
        stream.clone(),
        "if f().is_ok { std::result::Result::Ok(1 + 2) } else { std::result::Result::Err(\"no\") }",
    );
    let groups = stream.into_iter().filter(|token| matches!(token, TokenTree::Group(_))).count();
    assert_eq!(groups, 3);
}

fn swift_type(ok: TypeDescription, err: TypeDescription, type_pos: TypePosition) -> String {
    result(ok, err).to_swift_type(type_pos, &types(), &path())
}

#[test]
fn swift_types() {
    let ret = TypePosition::FnReturn(HostLang::Rust);
    let arg = TypePosition::FnArg(HostLang::Rust, 0);
    let callback = TypePosition::SwiftCallsRustAsyncOnCompleteReturnTy;
    assert_eq!(swift_type(class("A"), class("B"), ret), "A");
    assert_eq!(swift_type(class("A"), class("B"), arg), "RustResult<A, B>");
    assert_eq!(
        swift_type(number(), null(), TypePosition::SharedStructField),
        "RustResult<UInt32, ()>"
    );
    assert_eq!(swift_type(class("A"), class("B"), callback), "__private__ResultPtrAndPtr");
    assert_eq!(swift_type(null(), class("B"), callback), "UnsafeMutableRawPointer?");
    assert_eq!(
        swift_type(number(), class("B"), callback),
        "__swift_bridge__$ResultU32AndB"
    );
}

fn swift_value(ok: TypeDescription, err: TypeDescription, type_pos: TypePosition) -> String {
    result(ok, err).convert_ffi_value_to_swift_value("call()", type_pos, &types(), &path())
}

#[test]
fn swift_value_of_a_flag_and_pointer() {
    assert_eq!(
        swift_value(class("A"), class("B"), TypePosition::FnReturn(HostLang::Rust)),
        "try { let val = call(); if val.is_ok { return A(ptr: val.ok_or_err!) } else { throw B(ptr: val.ok_or_err!) } }()"
    );
}

#[test]
fn swift_value_of_an_error_pointer() {
    let ret = TypePosition::FnReturn(HostLang::Rust);
    assert_eq!(
        swift_value(null(), class("B"), ret),
        "try { let val = call(); if val != nil { throw B(ptr: val!) } else { return } }()"
    );
    assert_eq!(
        swift_value(unit_struct(), class("B"), ret),
        "try { let val = call(); if val != nil { throw B(ptr: val!) } else { return Unit() } }()"
    );
}

#[test]
fn swift_value_of_a_tagged_union() {
    let ret = TypePosition::FnReturn(HostLang::Rust);
    assert_eq!(
        swift_value(number(), shared_struct("Failure"), ret),
        "try { let val = call(); switch val.tag { case __swift_bridge__$ResultU32AndFailure$ResultOk: return val.payload.ok case __swift_bridge__$ResultU32AndFailure$ResultErr: throw val.payload.err.intoSwiftRepr() default: fatalError() } }()"
    );
    assert_eq!(
        swift_value(null(), number(), ret),
        "try { let val = call(); switch val.tag { case __swift_bridge__$ResultVoidAndU32$ResultOk: return case __swift_bridge__$ResultVoidAndU32$ResultErr: throw val.payload.err default: fatalError() } }()"
    );
}

#[test]
fn swift_value_in_a_throwing_initializer() {
    assert_eq!(
        swift_value(class("A"), number(), TypePosition::ThrowingInit(HostLang::Rust)),
        "let val = call(); if val.tag == __swift_bridge__$ResultAAndU32$ResultOk { self.init(ptr: val.payload.ok) } else { throw val.payload.err }"
    );
}

#[test]
fn swift_expression_to_flag_and_pointer() {
    let arg = TypePosition::FnArg(HostLang::Rust, 0);
    assert_eq!(
        result(class("A"), class("B")).convert_swift_expression_to_ffi_compatible("arg", &types(), arg),
        "{ switch arg { case .Ok(let ok): return __private__ResultPtrAndPtr(is_ok: true, ok_or_err: {ok.isOwned = false; return ok.ptr!}()) case .Err(let err): return __private__ResultPtrAndPtr(is_ok: false, ok_or_err: {err.isOwned = false; return err.ptr!}()) } }()"
    );
    assert_eq!(
        result(null(), number()).convert_swift_expression_to_ffi_compatible("arg", &types(), arg),
        "{ switch arg { case .Ok(let ok): return __private__ResultPtrAndPtr(is_ok: true, ok_or_err: ok) case .Err(let err): return __private__ResultPtrAndPtr(is_ok: false, ok_or_err: err) } }()"
    );
}

fn callback(ok: TypeDescription, err: TypeDescription) -> String {
    result(ok, err).generate_swift_calls_async_rust_callback(
        "rustFnRetVal",
        TypePosition::FnReturn(HostLang::Rust),
        &types(),
        &path(),
    )
}

#[test]
fn async_callbacks() {
    assert_eq!(
        callback(class("A"), class("B")),
        "if rustFnRetVal.is_ok {
        wrapper.cb(.success(A(ptr: rustFnRetVal.ok_or_err!)))
    } else {
        wrapper.cb(.failure(B(ptr: rustFnRetVal.ok_or_err!)))
    }"
    );
    assert_eq!(
        callback(null(), class("B")),
        "if rustFnRetVal == nil {
        wrapper.cb(.success(()))
    } else {
        wrapper.cb(.failure(B(ptr: rustFnRetVal!)))
    }"
    );
    assert_eq!(
        callback(number(), shared_struct("Failure")),
        "switch rustFnRetVal.tag { case __swift_bridge__$ResultU32AndFailure$ResultOk: wrapper.cb(.success(rustFnRetVal.payload.ok)) case __swift_bridge__$ResultU32AndFailure$ResultErr: wrapper.cb(.failure(rustFnRetVal.payload.err.intoSwiftRepr())) default: fatalError() }"
    );
    assert_eq!(
        callback(null(), number()),
        "switch rustFnRetVal.tag { case __swift_bridge__$ResultVoidAndU32$ResultOk: wrapper.cb(.success(())) case __swift_bridge__$ResultVoidAndU32$ResultErr: wrapper.cb(.failure(rustFnRetVal.payload.err)) default: fatalError() }"
    );
}

#[test]
fn tags_that_swift_tests_are_declared_in_c() {
    let result = result(number(), number());
    let c = result.generate_custom_c_ffi_types(&types()).unwrap().c_ffi_type;
    let swift = result.convert_ffi_value_to_swift_value(
        "f()",
        TypePosition::FnReturn(HostLang::Rust),
        &types(),
        &path(),
    );
    for tag in [result.c_ok_tag_name(&types()), result.c_err_tag_name(&types())] {
        assert!(c.contains(&tag));
        assert!(swift.contains(&tag));
    }
}

#[test]
fn templates_fill_every_gap() {
    assert_eq!(text_template(&[]).fill("x"), "");
    assert_eq!(text_template(&["a"]).fill("x"), "a");
    assert_eq!(text_template(&["(", " + ", ")"]).fill("x"), "(x + x)");
    same_tokens(token_template(&["f", "+", ""]).fill(&tokens("(1)")), "f(1) + (1)");
}

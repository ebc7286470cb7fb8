use proc_macro2::TokenStream;
use swift_bridge_ir::bridgeable_result::BuiltInResult;
use swift_bridge_ir::built_in::BridgedType;
use swift_bridge_ir::declarations::{
    HostLang, OpaqueForeignTypeDeclaration, TypeDeclaration, TypeDeclarations,
};
use swift_bridge_ir::extern_fn::{
    ArgType, FailableInitializerType, FnArg, ParsedExternFn, ReturnType, Type,
};
use swift_bridge_ir::generate_function_swift_calls_rust::gen_func_swift_calls_rust;
use swift_bridge_ir::type_description::{TextTemplate, TokenTemplate, TypeDescription};
use syn::Path;

fn path() -> Path {
    syn::parse_str("swift_bridge").unwrap()
}

fn text_template(parts: &[&str]) -> TextTemplate {
    TextTemplate { parts: parts.iter().map(|part| part.to_string()).collect() }
}

fn token_template() -> TokenTemplate {
    TokenTemplate { parts: vec![TokenStream::new(), TokenStream::new()] }
}

fn number() -> TypeDescription {
    TypeDescription {
        name: "U32".to_string(),
        rust_type: TokenStream::new(),
        swift_type: "UInt32".to_string(),
        c_type: "uint32_t".to_string(),
        ffi_type: TokenStream::new(),
        is_null: false,
        is_passed_via_pointer: false,
        only_value: None,
        rust_to_ffi: token_template(),
        ffi_ok_to_rust: token_template(),
        ffi_err_to_rust: token_template(),
        ffi_to_swift: text_template(&["", ""]),
        swift_to_ffi: text_template(&["", ""]),
        rust_definitions: vec![],
        c_definition: None,
    }
}

fn class(name: &str) -> TypeDescription {
    TypeDescription {
        name: name.to_string(),
        swift_type: name.to_string(),
        c_type: "void*".to_string(),
        is_passed_via_pointer: true,
        ffi_to_swift: text_template(&[&format!("{name}(ptr: "), ")"]),
        ..number()
    }
}

fn null() -> TypeDescription {
    TypeDescription {
        name: "Void".to_string(),
        swift_type: "()".to_string(),
        is_null: true,
        only_value: Some("()".to_string()),
        ..number()
    }
}

fn returning(ty: TypeDescription) -> Option<BridgedType<TypeDescription>> {
    Some(BridgedType::Other(ty))
}

fn returning_result(
    ok: TypeDescription,
    err: TypeDescription,
) -> Option<BridgedType<TypeDescription>> {
    Some(BridgedType::Result(BuiltInResult { ok_ty: Box::new(ok), err_ty: Box::new(err) }))
}

fn opaque(name: &str, host_lang: HostLang) -> TypeDeclaration {
    TypeDeclaration::Opaque(OpaqueForeignTypeDeclaration { ty: name.to_string(), host_lang })
}

fn some_function() -> ParsedExternFn<TypeDescription> {
    ParsedExternFn {
        name: "some_function".to_string(),
        is_async: false,
        inputs: vec![],
        output: ReturnType::Default,
        host_lang: HostLang::Rust,
        associated_type: None,
        is_method: false,
        is_copy_method_on_opaque_type: false,
        is_swift_initializer: false,
        swift_failable_initializer: None,
        swift_name_override: None,
        built_in_return: returning(null()),
        swift_params: "".to_string(),
        swift_call_args: "".to_string(),
        swift_return_type: "".to_string(),
        swift_generics: "".to_string(),
    }
}

fn arg(name: &str, ty: ArgType) -> FnArg {
    FnArg { name: name.to_string(), ty }
}

fn swift(function: ParsedExternFn<TypeDescription>) -> String {
    swift_with(function, TypeDeclarations::default())
}

fn swift_with(function: ParsedExternFn<TypeDescription>, types: TypeDeclarations) -> String {
    assert!(function.can_be_called_from_swift(&types));
    gen_func_swift_calls_rust(&function, &types, &path())
}

#[test]
fn functions_that_swift_cannot_call() {
    let types = TypeDeclarations::default();
    assert!(some_function().can_be_called_from_swift(&types));
    let shared = ParsedExternFn {
        associated_type: Some(TypeDeclaration::Shared),
        ..some_function()
    };
    assert!(!shared.can_be_called_from_swift(&types));
    let undeclared = ParsedExternFn { built_in_return: None, ..some_function() };
    assert!(!undeclared.can_be_called_from_swift(&types));
    let unknown_async = ParsedExternFn { built_in_return: None, is_async: true, ..some_function() };
    assert!(!unknown_async.can_be_called_from_swift(&types));
    let async_without_error = ParsedExternFn {
        built_in_return: returning_result(number(), null()),
        is_async: true,
        ..some_function()
    };
    assert!(!async_without_error.can_be_called_from_swift(&types));
    let throwing = ParsedExternFn {
        built_in_return: None,
        is_swift_initializer: true,
        swift_failable_initializer: Some(FailableInitializerType::Throwing),
        ..some_function()
    };
    assert!(!throwing.can_be_called_from_swift(&types));
    let swift_to_swift = ParsedExternFn {
        built_in_return: None,
        host_lang: HostLang::Swift,
        ..some_function()
    };
    assert!(swift_to_swift.can_be_called_from_swift(&types));
}

#[test]
fn freestanding_function() {
    assert_eq!(
        swift(some_function()),
        "public func some_function() {
    __swift_bridge__$some_function()
}"
    );
}

#[test]
fn function_with_another_name_generics_and_a_value() {
    assert_eq!(
        swift(ParsedExternFn {
            swift_name_override: Some("someFunction".to_string()),
            swift_generics: "<GenericToRustStr: ToRustStr>".to_string(),
            swift_params: "_ a: UInt8".to_string(),
            swift_call_args: "a".to_string(),
            swift_return_type: " -> UInt32".to_string(),
            inputs: vec![arg("a", ArgType::Other)],
            built_in_return: returning(number()),
            ..some_function()
        }),
        "public func someFunction<GenericToRustStr: ToRustStr>(_ a: UInt8) -> UInt32 {
    __swift_bridge__$some_function(a)
}"
    );
}

#[test]
fn method_and_associated_functions() {
    let method = |is_method, is_copy_method_on_opaque_type| {
        swift(ParsedExternFn {
            associated_type: Some(opaque("Stack", HostLang::Rust)),
            is_method,
            is_copy_method_on_opaque_type,
            swift_call_args: "ptr".to_string(),
            ..some_function()
        })
    };
    assert_eq!(
        method(true, false),
        "    public func some_function() {
        __swift_bridge__$Stack$some_function(ptr)
    }"
    );
    assert_eq!(
        method(false, false),
        "    class public func some_function() {
        __swift_bridge__$Stack$some_function(ptr)
    }"
    );
    assert_eq!(
        method(false, true),
        "    static public func some_function() {
        __swift_bridge__$Stack$some_function(ptr)
    }"
    );
}

fn initializer(
    failable: Option<FailableInitializerType>,
    is_copy_method_on_opaque_type: bool,
) -> ParsedExternFn<TypeDescription> {
    ParsedExternFn {
        name: "new".to_string(),
        associated_type: Some(opaque("Foo", HostLang::Rust)),
        is_swift_initializer: true,
        is_copy_method_on_opaque_type,
        swift_failable_initializer: failable,
        swift_return_type: " -> Foo".to_string(),
        built_in_return: None,
        ..some_function()
    }
}

#[test]
fn initializers() {
    assert_eq!(
        swift(initializer(None, false)),
        "    public convenience init() {
        self.init(ptr: __swift_bridge__$Foo$new())
    }"
    );
    assert_eq!(
        swift(initializer(None, true)),
        "    public init() {
        self.bytes = __swift_bridge__$Foo$new()
    }"
    );
    assert_eq!(
        swift(initializer(Some(FailableInitializerType::Option), false)),
        "    public convenience init?() {
        guard let val = __swift_bridge__$Foo$new() else { return nil }; self.init(ptr: val)
    }"
    );
}

#[test]
fn throwing_initializer() {
    assert_eq!(
        swift(ParsedExternFn {
            built_in_return: returning_result(class("Foo"), number()),
            ..initializer(Some(FailableInitializerType::Throwing), false)
        }),
        "    public convenience init() throws {
        let val = __swift_bridge__$Foo$new(); if val.tag == __swift_bridge__$ResultFooAndU32$ResultOk { self.init(ptr: val.payload.ok) } else { throw val.payload.err }
    }"
    );
}

#[test]
fn declared_return_types() {
    let declared = |ty: Type, decl: TypeDeclaration| {
        let mut types = TypeDeclarations::default();
        types.insert("Foo".to_string(), decl);
        let function = ParsedExternFn {
            output: ReturnType::Type(ty),
            built_in_return: None,
            swift_return_type: " -> Foo".to_string(),
            ..some_function()
        };
        swift_with(function, types)
    };
    let foo = || Type::Path { segments: "Foo".to_string(), whole: "Foo".to_string() };
    let foo_ref = || Type::Reference { elem: "Foo".to_string(), whole: "& Foo".to_string() };
    let body = |call: &str| format!("public func some_function() -> Foo {{\n    {call}\n}}");

    assert_eq!(
        declared(foo(), TypeDeclaration::Shared),
        body("__swift_bridge__$some_function()")
    );
    assert_eq!(
        declared(foo(), opaque("Foo", HostLang::Rust)),
        body("Foo(ptr: __swift_bridge__$some_function(), isOwned: true)")
    );
    assert_eq!(
        declared(foo_ref(), opaque("Foo", HostLang::Rust)),
        body("Foo(ptr: __swift_bridge__$some_function(), isOwned: false)")
    );
    assert_eq!(
        declared(foo(), opaque("Foo", HostLang::Swift)),
        body("Unmanaged<Foo>.fromOpaque(__swift_bridge__$some_function()).takeRetainedValue()")
    );
    assert_eq!(
        declared(foo_ref(), opaque("Foo", HostLang::Swift)),
        body("Unmanaged<& Foo>.fromOpaque(__swift_bridge__$some_function()).takeRetainedValue()")
    );
}

#[test]
fn swift_function_with_a_declared_return_type() {
    assert_eq!(
        swift(ParsedExternFn {
            host_lang: HostLang::Swift,
            built_in_return: None,
            ..some_function()
        }),
        "public func some_function() {
    __swift_bridge__$some_function()
}"
    );
}

#[test]
fn function_that_returns_a_result() {
    assert_eq!(
        swift(ParsedExternFn {
            built_in_return: returning_result(class("A"), class("B")),
            swift_return_type: " throws -> A".to_string(),
            ..some_function()
        }),
        "public func some_function() throws -> A {
    try { let val = __swift_bridge__$some_function(); if val.is_ok { return A(ptr: val.ok_or_err!) } else { throw B(ptr: val.ok_or_err!) } }()
}"
    );
}

#[test]
fn string_parameters_stand_in_closures() {
    assert_eq!(
        swift(ParsedExternFn {
            inputs: vec![
                arg("first", ArgType::Str),
                arg("count", ArgType::Other),
                arg("second", ArgType::OptionalStr),
            ],
            swift_call_args: "firstAsRustStr, count, secondAsRustStr".to_string(),
            built_in_return: returning(number()),
            ..some_function()
        }),
        "public func some_function() {
    return optionalRustStrToRustStr(second, { secondAsRustStr in
        return first.toRustStr({ firstAsRustStr in
        __swift_bridge__$some_function(firstAsRustStr, count, secondAsRustStr)
    })
    })
}"
    );
}

#[test]
fn string_parameter_of_a_method_that_returns_nothing() {
    assert_eq!(
        swift(ParsedExternFn {
            associated_type: Some(opaque("Foo", HostLang::Rust)),
            is_method: true,
            inputs: vec![arg("self", ArgType::Other), arg("name", ArgType::Str)],
            swift_call_args: "ptr, nameAsRustStr".to_string(),
            ..some_function()
        }),
        "    public func some_function() {
        name.toRustStr({ nameAsRustStr in
            __swift_bridge__$Foo$some_function(ptr, nameAsRustStr)
        })
    }"
    );
}

#[test]
fn async_function_that_returns_nothing() {
    assert_eq!(
        swift(ParsedExternFn { is_async: true, ..some_function() }),
        "public func some_function() async {
    func onComplete(cbWrapperPtr: UnsafeMutableRawPointer?) {
        let wrapper = Unmanaged<CbWrapper$some_function>.fromOpaque(cbWrapperPtr!).takeRetainedValue()
        wrapper.cb(.success(()))
    }

    return await withCheckedContinuation({ (continuation: CheckedContinuation<(), Never>) in
        let callback = { rustFnRetVal in
            continuation.resume(with: rustFnRetVal)
        }

        let wrapper = CbWrapper$some_function(cb: callback)
        let wrapperPtr = Unmanaged.passRetained(wrapper).toOpaque()

        __swift_bridge__$some_function(wrapperPtr, onComplete)
    })
}
class CbWrapper$some_function {
    var cb: (Result<(), Never>) -> ()

    public init(cb: @escaping (Result<(), Never>) -> ()) {
        self.cb = cb
    }
}"
    );
}

#[test]
fn async_method_that_returns_a_result() {
    assert_eq!(
        swift(ParsedExternFn {
            is_async: true,
            associated_type: Some(opaque("Foo", HostLang::Rust)),
            is_method: true,
            inputs: vec![arg("self", ArgType::Other)],
            swift_call_args: "ptr".to_string(),
            swift_return_type: " throws -> A".to_string(),
            built_in_return: returning_result(class("A"), class("B")),
            ..some_function()
        }),
        "    public func some_function() async throws -> A {
        func onComplete(cbWrapperPtr: UnsafeMutableRawPointer?, rustFnRetVal: __private__ResultPtrAndPtr) {
            let wrapper = Unmanaged<CbWrapper$Foo$some_function>.fromOpaque(cbWrapperPtr!).takeRetainedValue()
            if rustFnRetVal.is_ok {
                wrapper.cb(.success(A(ptr: rustFnRetVal.ok_or_err!)))
            } else {
                wrapper.cb(.failure(B(ptr: rustFnRetVal.ok_or_err!)))
            }
        }

        return try await withCheckedThrowingContinuation({ (continuation: CheckedContinuation<A, Error>) in
            let callback = { rustFnRetVal in
                continuation.resume(with: rustFnRetVal)
            }

            let wrapper = CbWrapper$Foo$some_function(cb: callback)
            let wrapperPtr = Unmanaged.passRetained(wrapper).toOpaque()

            __swift_bridge__$Foo$some_function(wrapperPtr, onComplete, ptr)
        })
    }
    class CbWrapper$Foo$some_function {
        var cb: (Result<A, Error>) -> ()
    
        public init(cb: @escaping (Result<A, Error>) -> ()) {
            self.cb = cb
        }
    }"
    );
}

#[test]
fn async_function_that_returns_a_value() {
    let text = swift(ParsedExternFn {
        is_async: true,
        built_in_return: returning(class("A")),
        swift_return_type: " -> A".to_string(),
        ..some_function()
    });
    assert!(text.starts_with("public func some_function() async -> A {\n"));
    assert!(text.contains(", rustFnRetVal: A) {\n"));
    assert!(text.contains("        wrapper.cb(.success(A(ptr: rustFnRetVal)))\n"));
    assert!(text.contains("CheckedContinuation<A, Never>"));
}

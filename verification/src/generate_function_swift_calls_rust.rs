//! The Swift function through which Swift calls a Rust function.
use syn::Path;
use vstd::prelude::*;

use crate::bridged_type::{Aspect, BridgeableType, TypePosition};
use crate::built_in::BridgedType;
use crate::declarations::{HostLang, TypeDeclaration, TypeDeclarations};
use crate::extern_fn;
use crate::extern_fn::{
    ArgType, FailableInitializerType, FnArg, ParsedExternFn, ReturnType, Type,
};
use crate::text;
use crate::SWIFT_BRIDGE_PREFIX;

verus! {

/// The part of a generated name that says which type a function belongs to.
pub open spec fn type_name_segment<T: BridgeableType>(function: &ParsedExternFn<T>) -> Seq<char> {
    match function.associated_type {
        Some(TypeDeclaration::Opaque(opaque)) => "$"@ + opaque.ty@,
        _ => ""@,
    }
}

/// What each line of the function is indented by.
pub open spec fn indentation<T: BridgeableType>(function: &ParsedExternFn<T>) -> Seq<char> {
    if function.associated_type is Some {
        "    "@
    } else {
        ""@
    }
}

/// The call of the Rust function. An `async` function also takes the callback.
pub open spec fn rust_call<T: BridgeableType>(function: &ParsedExternFn<T>) -> Seq<char> {
    let name = SWIFT_BRIDGE_PREFIX@ + type_name_segment(function) + "$"@ + function.name@;
    if function.is_async {
        let args = if function.inputs@.len() == 0 {
            ""@
        } else {
            ", "@ + function.swift_call_args@
        };
        name + "(wrapperPtr, onComplete"@ + args + ")"@
    } else {
        name + "("@ + function.swift_call_args@ + ")"@
    }
}

/// What makes an associated function without `self` callable on the type.
pub open spec fn static_or_class<T: BridgeableType>(function: &ParsedExternFn<T>) -> Seq<char> {
    if function.associated_type is Some && !function.is_method && !function.is_swift_initializer {
        if function.is_copy_method_on_opaque_type {
            "static "@
        } else {
            "class "@
        }
    } else {
        ""@
    }
}

/// The start of the Swift function, up to its name.
pub open spec fn public_func_name<T: BridgeableType>(function: &ParsedExternFn<T>) -> Seq<char> {
    if function.is_swift_initializer {
        if function.is_copy_method_on_opaque_type {
            "public init"@
        } else if function.swift_failable_initializer == Some(FailableInitializerType::Option) {
            "public convenience init?"@
        } else {
            "public convenience init"@
        }
    } else {
        match function.swift_name_override {
            Some(swift_name) => "public func "@ + swift_name@,
            None => "public func "@ + function.name@,
        }
    }
}

/// What says that the Swift function can throw.
pub open spec fn throws_text<T: BridgeableType>(function: &ParsedExternFn<T>) -> Seq<char> {
    if function.throws() {
        " throws"@
    } else {
        ""@
    }
}

/// A call of a Rust function that returns a declared type, as a Swift value.
pub open spec fn declared_type_to_swift_value(
    call: Seq<char>,
    ty: Type,
    decl: TypeDeclaration,
) -> Seq<char> {
    match (decl, ty) {
        (TypeDeclaration::Opaque(opaque), Type::Reference { elem, whole }) => {
            if opaque.host_lang == HostLang::Rust {
                elem@ + "(ptr: "@ + call + ", isOwned: "@ + "false"@ + ")"@
            } else {
                "Unmanaged<"@ + whole@ + ">.fromOpaque("@ + call + ").takeRetainedValue()"@
            }
        },
        (TypeDeclaration::Opaque(opaque), Type::Path { segments, whole }) => {
            if opaque.host_lang == HostLang::Rust {
                whole@ + "(ptr: "@ + call + ", isOwned: "@ + "true"@ + ")"@
            } else {
                "Unmanaged<"@ + whole@ + ">.fromOpaque("@ + call + ").takeRetainedValue()"@
            }
        },
        _ => call,
    }
}

/// The call of the Rust function, as a Swift value. An `async` function gives its
/// value to the callback, and an initializer that cannot throw takes it as it is.
pub open spec fn converted_call<T: BridgeableType>(
    function: &ParsedExternFn<T>,
    types: &TypeDeclarations,
    swift_bridge_path: &Path,
) -> Seq<char> {
    let call = rust_call(function);
    if function.is_async {
        call
    } else if function.is_swift_initializer {
        if function.throws() {
            function.built_in_return->0.spec_convert_ffi_expression_to_swift_type(
                call,
                TypePosition::ThrowingInit(function.host_lang),
                types,
                swift_bridge_path,
            )
        } else {
            call
        }
    } else {
        match function.built_in_return {
            Some(ty) => ty.spec_convert_ffi_expression_to_swift_type(
                call,
                TypePosition::FnReturn(function.host_lang),
                types,
                swift_bridge_path,
            ),
            None => if function.host_lang == HostLang::Swift {
                call
            } else {
                match function.output {
                    ReturnType::Type(Type::Reference { elem, whole }) => {
                        declared_type_to_swift_value(
                            call,
                            Type::Reference { elem, whole },
                            types@[elem@],
                        )
                    },
                    ReturnType::Type(Type::Path { segments, whole }) => {
                        declared_type_to_swift_value(
                            call,
                            Type::Path { segments, whole },
                            types@[segments@],
                        )
                    },
                    _ => call,
                }
            },
        }
    }
}

/// What stands before a call inside a closure, so that its value is returned.
pub open spec fn return_keyword<T: BridgeableType>(function: &ParsedExternFn<T>) -> Seq<char> {
    if function.returns_null() || function.is_swift_initializer {
        ""@
    } else {
        "return "@
    }
}

/// `call` inside of a closure that has the string parameter as a `RustStr`.
pub open spec fn with_rust_str(
    arg: FnArg,
    return_keyword: Seq<char>,
    indentation: Seq<char>,
    call: Seq<char>,
) -> Seq<char> {
    match arg.ty {
        ArgType::Str => return_keyword + arg.name@ + ".toRustStr({ "@ + arg.name@
            + "AsRustStr in\n"@ + indentation + "        "@ + call + "\n"@ + indentation
            + "    })"@,
        ArgType::OptionalStr => return_keyword + "optionalRustStrToRustStr("@ + arg.name@
            + ", { "@ + arg.name@ + "AsRustStr in\n"@ + indentation + "        "@ + call + "\n"@
            + indentation + "    })"@,
        ArgType::Other => call,
    }
}

/// `call` inside of a closure for each string parameter, that of the last one
/// outside.
pub open spec fn with_rust_strs(
    args: Seq<FnArg>,
    return_keyword: Seq<char>,
    indentation: Seq<char>,
    call: Seq<char>,
) -> Seq<char>
    decreases args.len(),
{
    if args.len() == 0 {
        call
    } else {
        with_rust_str(
            args.last(),
            return_keyword,
            indentation,
            with_rust_strs(args.drop_last(), return_keyword, indentation, call),
        )
    }
}

/// The statement that a Swift initializer makes of the call.
pub open spec fn initializer_statement<T: BridgeableType>(
    function: &ParsedExternFn<T>,
    call: Seq<char>,
) -> Seq<char> {
    if !function.is_swift_initializer {
        call
    } else if function.is_copy_method_on_opaque_type {
        "self.bytes = "@ + call
    } else {
        match function.swift_failable_initializer {
            Some(FailableInitializerType::Option) => "guard let val = "@ + call
                + " else { return nil }; self.init(ptr: val)"@,
            Some(FailableInitializerType::Throwing) => call,
            None => "self.init(ptr: "@ + call + ")"@,
        }
    }
}

/// The statement in which the Swift function calls the Rust function.
pub open spec fn call_statement<T: BridgeableType>(
    function: &ParsedExternFn<T>,
    types: &TypeDeclarations,
    swift_bridge_path: &Path,
) -> Seq<char> {
    initializer_statement(
        function,
        with_rust_strs(
            function.inputs@,
            return_keyword(function),
            indentation(function),
            converted_call(function, types, swift_bridge_path),
        ),
    )
}

/// What stands behind the parameters of the Swift function.
pub open spec fn return_type_text<T: BridgeableType>(function: &ParsedExternFn<T>) -> Seq<char> {
    if function.is_swift_initializer {
        ""@
    } else {
        function.swift_return_type@
    }
}

/// The Swift function up to its parameters.
pub open spec fn head<T: BridgeableType>(function: &ParsedExternFn<T>) -> Seq<char> {
    indentation(function) + static_or_class(function) + public_func_name(function)
        + function.swift_generics@ + "("@ + function.swift_params@ + ")"@
}

/// The Swift function for a Rust function that is not `async`.
pub open spec fn sync_definition<T: BridgeableType>(
    function: &ParsedExternFn<T>,
    types: &TypeDeclarations,
    swift_bridge_path: &Path,
) -> Seq<char> {
    head(function) + throws_text(function) + return_type_text(function) + " {\n"@ + indentation(
        function,
    ) + "    "@ + call_statement(function, types, swift_bridge_path) + "\n"@ + indentation(function)
        + "}"@
}

/// The class that carries the callback of an `async` function over the bridge.
pub open spec fn callback_wrapper_ty<T: BridgeableType>(function: &ParsedExternFn<T>) -> Seq<char> {
    "CbWrapper"@ + type_name_segment(function) + "$"@ + function.name@
}

/// The Swift type of what an `async` function returns.
pub open spec fn async_return_type<T: BridgeableType>(
    return_ty: &BridgedType<T>,
    types: &TypeDeclarations,
    swift_bridge_path: &Path,
) -> Seq<char> {
    return_ty.spec_to_swift_type(
        TypePosition::FnReturn(HostLang::Rust),
        types,
        swift_bridge_path,
    )
}

/// The Swift type of the error of an `async` function.
pub open spec fn async_error_type<T: BridgeableType>(return_ty: &BridgedType<T>) -> Seq<char> {
    match return_ty {
        BridgedType::Result(_) => "Error"@,
        BridgedType::Other(_) => "Never"@,
    }
}

/// The parameter in which the callback gets what an `async` function returns.
pub open spec fn on_complete_param<T: BridgeableType>(
    return_ty: &BridgedType<T>,
    types: &TypeDeclarations,
    swift_bridge_path: &Path,
) -> Seq<char> {
    if return_ty.spec_is_null() {
        ""@
    } else {
        ", rustFnRetVal: "@ + return_ty.spec_to_swift_type(
            TypePosition::SwiftCallsRustAsyncOnCompleteReturnTy,
            types,
            swift_bridge_path,
        )
    }
}

/// The statement that runs the callback of an `async` function.
pub open spec fn run_callback<T: BridgeableType>(
    return_ty: &BridgedType<T>,
    types: &TypeDeclarations,
    swift_bridge_path: &Path,
) -> Seq<char> {
    match return_ty {
        BridgedType::Result(result) => result.spec_generate_swift_calls_async_rust_callback(
            "rustFnRetVal"@,
            TypePosition::FnReturn(HostLang::Rust),
            types,
            swift_bridge_path,
        ),
        BridgedType::Other(ty) => {
            let value = if ty.spec_is_null() {
                "()"@
            } else {
                ty.spec_convert_ffi_expression_to_swift_type(
                    "rustFnRetVal"@,
                    TypePosition::SwiftCallsRustAsyncOnCompleteReturnTy,
                    types,
                    swift_bridge_path,
                )
            };
            "wrapper.cb(.success("@ + value + "))"@
        },
    }
}

/// The start of the statement that waits for an `async` function.
pub open spec fn await_text<T: BridgeableType>(return_ty: &BridgedType<T>) -> Seq<char> {
    match return_ty {
        BridgedType::Result(_) => "return try await withCheckedThrowingContinuation"@,
        BridgedType::Other(_) => "return await withCheckedContinuation"@,
    }
}

/// The body of the Swift function for an `async` function, without indentation.
pub open spec fn async_body<T: BridgeableType>(
    function: &ParsedExternFn<T>,
    return_ty: &BridgedType<T>,
    types: &TypeDeclarations,
    swift_bridge_path: &Path,
) -> Seq<char> {
    "func onComplete(cbWrapperPtr: UnsafeMutableRawPointer?"@ + on_complete_param(
        return_ty,
        types,
        swift_bridge_path,
    ) + ") {\n    let wrapper = Unmanaged<"@ + callback_wrapper_ty(function)
        + ">.fromOpaque(cbWrapperPtr!).takeRetainedValue()\n    "@ + run_callback(
        return_ty,
        types,
        swift_bridge_path,
    ) + "\n}\n\n"@ + await_text(return_ty) + "({ (continuation: CheckedContinuation<"@
        + async_return_type(return_ty, types, swift_bridge_path) + ", "@ + async_error_type(return_ty)
        + ">) in\n    let callback = { rustFnRetVal in\n        continuation.resume(with: rustFnRetVal)\n    }\n\n    let wrapper = "@
        + callback_wrapper_ty(function)
        + "(cb: callback)\n    let wrapperPtr = Unmanaged.passRetained(wrapper).toOpaque()\n\n    "@
        + call_statement(function, types, swift_bridge_path) + "\n})"@
}

/// One line of a body, indented if it holds anything.
pub open spec fn indented_line(line: Seq<char>, indentation: Seq<char>) -> Seq<char> {
    if line.len() == 0 {
        "\n"@
    } else {
        indentation + "    "@ + line + "\n"@
    }
}

/// The lines of a body, each indented if it holds anything.
pub open spec fn indented_lines(lines: Seq<Seq<char>>, indentation: Seq<char>) -> Seq<char>
    decreases lines.len(),
{
    if lines.len() == 0 {
        ""@
    } else {
        indented_lines(lines.drop_last(), indentation) + indented_line(lines.last(), indentation)
    }
}

/// A body with its lines indented, without white space at the end.
pub open spec fn indented(body: Seq<char>, indentation: Seq<char>) -> Seq<char> {
    text::trimmed_end(indented_lines(text::lines_of(body), indentation))
}

/// The definition of the class that carries the callback.
pub open spec fn callback_wrapper<T: BridgeableType>(
    function: &ParsedExternFn<T>,
    return_ty: &BridgedType<T>,
    types: &TypeDeclarations,
    swift_bridge_path: &Path,
) -> Seq<char> {
    let indent = indentation(function);
    let ret = async_return_type(return_ty, types, swift_bridge_path);
    let error = async_error_type(return_ty);
    indent + "class "@ + callback_wrapper_ty(function) + " {\n"@ + indent
        + "    var cb: (Result<"@ + ret + ", "@ + error + ">) -> ()\n"@ + indent + "\n"@ + indent
        + "    public init(cb: @escaping (Result<"@ + ret + ", "@ + error + ">) -> ()) {\n"@
        + indent + "        self.cb = cb\n"@ + indent + "    }\n"@ + indent + "}"@
}

/// The Swift function for an `async` function, and the class for its callback.
pub open spec fn async_definition<T: BridgeableType>(
    function: &ParsedExternFn<T>,
    return_ty: &BridgedType<T>,
    types: &TypeDeclarations,
    swift_bridge_path: &Path,
) -> Seq<char> {
    head(function) + " async"@ + return_type_text(function) + " {\n"@ + indented(
        async_body(function, return_ty, types, swift_bridge_path),
        indentation(function),
    ) + "\n"@ + indentation(function) + "}\n"@ + callback_wrapper(
        function,
        return_ty,
        types,
        swift_bridge_path,
    )
}

/// The Swift function through which Swift calls a Rust function.
pub open spec fn spec_gen_func_swift_calls_rust<T: BridgeableType>(
    function: &ParsedExternFn<T>,
    types: &TypeDeclarations,
    swift_bridge_path: &Path,
) -> Seq<char> {
    if function.is_async {
        async_definition(function, &function.built_in_return->0, types, swift_bridge_path)
    } else {
        sync_definition(function, types, swift_bridge_path)
    }
}

fn gen_type_name_segment<T: BridgeableType>(function: &ParsedExternFn<T>) -> (r: String)
    ensures
        r@ == type_name_segment(function),
{
    match &function.associated_type {
        Some(TypeDeclaration::Opaque(opaque)) => {
            let mut r = "$".to_string();
            r.append(&opaque.ty);
            r
        },
        _ => "".to_string(),
    }
}

fn gen_indentation<T: BridgeableType>(function: &ParsedExternFn<T>) -> (r: &'static str)
    ensures
        r@ == indentation(function),
{
    if function.associated_type.is_some() {
        "    "
    } else {
        ""
    }
}

fn gen_rust_call<T: BridgeableType>(function: &ParsedExternFn<T>) -> (r: String)
    ensures
        r@ == rust_call(function),
{
    let mut r = SWIFT_BRIDGE_PREFIX.to_string();
    r.append(&gen_type_name_segment(function));
    r.append("$");
    r.append(&function.name);
    if function.is_async {
        let args = if function.inputs.len() == 0 {
            "".to_string()
        } else {
            let mut args = ", ".to_string();
            args.append(&function.swift_call_args);
            args
        };
        r.append("(wrapperPtr, onComplete");
        r.append(&args);
        r.append(")");
    } else {
        r.append("(");
        r.append(&function.swift_call_args);
        r.append(")");
    }
    r
}

fn gen_head<T: BridgeableType>(function: &ParsedExternFn<T>) -> (r: String)
    ensures
        r@ == head(function),
{
    let static_or_class = if function.associated_type.is_some() && !function.is_method
        && !function.is_swift_initializer {
        if function.is_copy_method_on_opaque_type {
            "static "
        } else {
            "class "
        }
    } else {
        ""
    };
    let public_func_name = if function.is_swift_initializer {
        if function.is_copy_method_on_opaque_type {
            "public init".to_string()
        } else if let Some(FailableInitializerType::Option) = function.swift_failable_initializer {
            "public convenience init?".to_string()
        } else {
            "public convenience init".to_string()
        }
    } else if let Some(swift_name) = &function.swift_name_override {
        let mut name = "public func ".to_string();
        name.append(swift_name);
        name
    } else {
        let mut name = "public func ".to_string();
        name.append(&function.name);
        name
    };
    let mut r = gen_indentation(function).to_string();
    r.append(static_or_class);
    r.append(&public_func_name);
    r.append(&function.swift_generics);
    r.append("(");
    r.append(&function.swift_params);
    r.append(")");
    r
}

fn gen_opaque_value(ty: &str, call: &str, is_owned: &str) -> (r: String)
    ensures
        r@ == ty@ + "(ptr: "@ + call@ + ", isOwned: "@ + is_owned@ + ")"@,
{
    let mut r = ty.to_string();
    r.append("(ptr: ");
    r.append(call);
    r.append(", isOwned: ");
    r.append(is_owned);
    r.append(")");
    r
}

fn gen_unmanaged_value(ty: &str, call: &str) -> (r: String)
    ensures
        r@ == "Unmanaged<"@ + ty@ + ">.fromOpaque("@ + call@ + ").takeRetainedValue()"@,
{
    let mut r = "Unmanaged<".to_string();
    r.append(ty);
    r.append(">.fromOpaque(");
    r.append(call);
    r.append(").takeRetainedValue()");
    r
}

fn gen_declared_type_to_swift_value(call: String, ty: &Type, decl: &TypeDeclaration) -> (r: String)
    ensures
        r@ == declared_type_to_swift_value(call@, *ty, *decl),
{
    match decl {
        TypeDeclaration::Shared => call,
        TypeDeclaration::Opaque(opaque) => match ty {
            Type::Reference { elem, whole } => {
                if opaque.host_lang.is_rust() {
                    gen_opaque_value(elem, &call, "false")
                } else {
                    gen_unmanaged_value(whole, &call)
                }
            },
            Type::Path { segments: _, whole } => {
                if opaque.host_lang.is_rust() {
                    gen_opaque_value(whole, &call, "true")
                } else {
                    gen_unmanaged_value(whole, &call)
                }
            },
            Type::Other => call,
        },
    }
}

fn gen_converted_call<T: BridgeableType>(
    function: &ParsedExternFn<T>,
    types: &TypeDeclarations,
    swift_bridge_path: &Path,
) -> (r: String)
    requires
        function.is_callable_from_swift(types),
    ensures
        r@ == converted_call(function, types, swift_bridge_path),
{
    let call = gen_rust_call(function);
    if function.is_async {
        return call;
    }
    if function.is_swift_initializer {
        if let Some(FailableInitializerType::Throwing) = function.swift_failable_initializer {
            if let Some(built_in) = &function.built_in_return {
                return built_in.convert_ffi_expression_to_swift_type(
                    &call,
                    TypePosition::ThrowingInit(function.host_lang),
                    types,
                    swift_bridge_path,
                );
            }
        }
        return call;
    }
    if let Some(built_in) = &function.built_in_return {
        return built_in.convert_ffi_expression_to_swift_type(
            &call,
            TypePosition::FnReturn(function.host_lang),
            types,
            swift_bridge_path,
        );
    }
    if function.host_lang.is_swift() {
        return call;
    }
    match &function.output {
        ReturnType::Default => call,
        ReturnType::Type(ty) => {
            let ty_name = match ty {
                Type::Reference { elem, whole: _ } => elem,
                Type::Path { segments, whole: _ } => segments,
                Type::Other => return call,
            };
            match types.get(ty_name) {
                Some(decl) => gen_declared_type_to_swift_value(call, ty, decl),
                None => call,
            }
        },
    }
}

fn gen_with_rust_str(arg: &FnArg, return_keyword: &str, indentation: &str, call: String) -> (r:
    String)
    ensures
        r@ == with_rust_str(*arg, return_keyword@, indentation@, call@),
{
    match arg.ty {
        ArgType::Str => {
            let mut r = return_keyword.to_string();
            r.append(&arg.name);
            r.append(".toRustStr({ ");
            r.append(&arg.name);
            r.append("AsRustStr in\n");
            r.append(indentation);
            r.append("        ");
            r.append(&call);
            r.append("\n");
            r.append(indentation);
            r.append("    })");
            r
        },
        ArgType::OptionalStr => {
            let mut r = return_keyword.to_string();
            r.append("optionalRustStrToRustStr(");
            r.append(&arg.name);
            r.append(", { ");
            r.append(&arg.name);
            r.append("AsRustStr in\n");
            r.append(indentation);
            r.append("        ");
            r.append(&call);
            r.append("\n");
            r.append(indentation);
            r.append("    })");
            r
        },
        ArgType::Other => call,
    }
}

fn gen_initializer_statement<T: BridgeableType>(function: &ParsedExternFn<T>, call: String) -> (r:
    String)
    ensures
        r@ == initializer_statement(function, call@),
{
    if !function.is_swift_initializer {
        return call;
    }
    if function.is_copy_method_on_opaque_type {
        let mut r = "self.bytes = ".to_string();
        r.append(&call);
        return r;
    }
    match function.swift_failable_initializer {
        Some(FailableInitializerType::Option) => {
            let mut r = "guard let val = ".to_string();
            r.append(&call);
            r.append(" else { return nil }; self.init(ptr: val)");
            r
        },
        Some(FailableInitializerType::Throwing) => call,
        None => {
            let mut r = "self.init(ptr: ".to_string();
            r.append(&call);
            r.append(")");
            r
        },
    }
}

fn gen_call_statement<T: BridgeableType>(
    function: &ParsedExternFn<T>,
    types: &TypeDeclarations,
    swift_bridge_path: &Path,
) -> (r: String)
    requires
        function.is_callable_from_swift(types),
    ensures
        r@ == call_statement(function, types, swift_bridge_path),
{
    let returns_null = match &function.built_in_return {
        Some(ty) => ty.is_null(),
        None => false,
    };
    let keyword = if returns_null || function.is_swift_initializer {
        ""
    } else {
        "return "
    };
    let indent = gen_indentation(function);
    let mut call = gen_converted_call(function, types, swift_bridge_path);
    let ghost inner = call@;
    let mut i: usize = 0;
    while i < function.inputs.len()
        invariant
            i <= function.inputs@.len(),
            call@ == with_rust_strs(function.inputs@.take(i as int), keyword@, indent@, inner),
        decreases function.inputs@.len() - i,
    {
        call = gen_with_rust_str(&function.inputs[i], keyword, indent, call);
        assert(function.inputs@.take(i + 1).drop_last() =~= function.inputs@.take(i as int));
        i = i + 1;
    }
    assert(function.inputs@.take(i as int) =~= function.inputs@);
    gen_initializer_statement(function, call)
}

fn gen_callback_wrapper_ty<T: BridgeableType>(function: &ParsedExternFn<T>) -> (r: String)
    ensures
        r@ == callback_wrapper_ty(function),
{
    let mut r = "CbWrapper".to_string();
    r.append(&gen_type_name_segment(function));
    r.append("$");
    r.append(&function.name);
    r
}

/// Indents the lines of `body` that hold anything, by four spaces more than
/// `indentation`, and drops the white space at the end.
pub fn indent_lines(body: &str, indentation: &str) -> (r: String)
    ensures
        r@ == indented(body@, indentation@),
{
    let lines = text::lines(body);
    let ghost views = text::views(lines@);
    let mut r = "".to_string();
    let mut i: usize = 0;
    while i < lines.len()
        invariant
            i <= lines@.len(),
            views == text::views(lines@),
            r@ == indented_lines(views.take(i as int), indentation@),
        decreases lines@.len() - i,
    {
        let line = if !lines[i].is_empty() {
            let mut line = indentation.to_string();
            line.append("    ");
            line.append(lines[i]);
            line.append("\n");
            line
        } else {
            "\n".to_string()
        };
        assert(line@ == indented_line(views[i as int], indentation@));
        r.append(&line);
        assert(views.take(i + 1).drop_last() =~= views.take(i as int));
        i = i + 1;
    }
    assert(views.take(i as int) =~= views);
    text::trim_end(&r).to_string()
}

fn gen_sync_definition<T: BridgeableType>(
    function: &ParsedExternFn<T>,
    types: &TypeDeclarations,
    swift_bridge_path: &Path,
) -> (r: String)
    requires
        function.is_callable_from_swift(types),
    ensures
        r@ == sync_definition(function, types, swift_bridge_path),
{
    let maybe_throws = if let Some(FailableInitializerType::Throwing) =
        function.swift_failable_initializer {
        " throws"
    } else {
        ""
    };
    let indent = gen_indentation(function);
    let mut r = gen_head(function);
    r.append(maybe_throws);
    r.append(gen_return_type(function));
    r.append(" {\n");
    r.append(indent);
    r.append("    ");
    r.append(&gen_call_statement(function, types, swift_bridge_path));
    r.append("\n");
    r.append(indent);
    r.append("}");
    r
}

fn gen_return_type<T: BridgeableType>(function: &ParsedExternFn<T>) -> (r: &str)
    ensures
        r@ == return_type_text(function),
{
    if function.is_swift_initializer {
        ""
    } else {
        function.swift_return_type.as_str()
    }
}

fn gen_run_callback<T: BridgeableType>(
    return_ty: &BridgedType<T>,
    types: &TypeDeclarations,
    swift_bridge_path: &Path,
) -> (r: String)
    requires
        extern_fn::is_returned_by_async(return_ty, types),
    ensures
        r@ == run_callback(return_ty, types, swift_bridge_path),
{
    match return_ty {
        BridgedType::Result(result) => result.generate_swift_calls_async_rust_callback(
            "rustFnRetVal",
            TypePosition::FnReturn(HostLang::Rust),
            types,
            swift_bridge_path,
        ),
        BridgedType::Other(ty) => {
            let value = if ty.is_null() {
                "()".to_string()
            } else {
                ty.convert_ffi_expression_to_swift_type(
                    "rustFnRetVal",
                    TypePosition::SwiftCallsRustAsyncOnCompleteReturnTy,
                    types,
                    swift_bridge_path,
                )
            };
            let mut r = "wrapper.cb(.success(".to_string();
            r.append(&value);
            r.append("))");
            r
        },
    }
}

fn gen_async_error_type<T: BridgeableType>(return_ty: &BridgedType<T>) -> (r: &'static str)
    ensures
        r@ == async_error_type(return_ty),
{
    match return_ty {
        BridgedType::Result(_) => "Error",
        BridgedType::Other(_) => "Never",
    }
}

fn gen_async_body<T: BridgeableType>(
    function: &ParsedExternFn<T>,
    return_ty: &BridgedType<T>,
    types: &TypeDeclarations,
    swift_bridge_path: &Path,
) -> (r: String)
    requires
        function.is_callable_from_swift(types),
        function.is_async,
        function.built_in_return == Some(*return_ty),
    ensures
        r@ == async_body(function, return_ty, types, swift_bridge_path),
{
    let on_complete_param = if return_ty.is_null() {
        "".to_string()
    } else {
        let mut param = ", rustFnRetVal: ".to_string();
        param.append(
            &return_ty.to_swift_type(
                TypePosition::SwiftCallsRustAsyncOnCompleteReturnTy,
                types,
                swift_bridge_path,
            ),
        );
        param
    };
    let await_text = match return_ty {
        BridgedType::Result(_) => "return try await withCheckedThrowingContinuation",
        BridgedType::Other(_) => "return await withCheckedContinuation",
    };
    let wrapper_ty = gen_callback_wrapper_ty(function);
    let ret = return_ty.to_swift_type(
        TypePosition::FnReturn(HostLang::Rust),
        types,
        swift_bridge_path,
    );
    let mut r = "func onComplete(cbWrapperPtr: UnsafeMutableRawPointer?".to_string();
    r.append(&on_complete_param);
    r.append(") {\n    let wrapper = Unmanaged<");
    r.append(&wrapper_ty);
    r.append(">.fromOpaque(cbWrapperPtr!).takeRetainedValue()\n    ");
    r.append(&gen_run_callback(return_ty, types, swift_bridge_path));
    r.append("\n}\n\n");
    r.append(await_text);
    r.append("({ (continuation: CheckedContinuation<");
    r.append(&ret);
    r.append(", ");
    r.append(gen_async_error_type(return_ty));
    r.append(
        ">) in\n    let callback = { rustFnRetVal in\n        continuation.resume(with: rustFnRetVal)\n    }\n\n    let wrapper = ",
    );
    r.append(&wrapper_ty);
    r.append(
        "(cb: callback)\n    let wrapperPtr = Unmanaged.passRetained(wrapper).toOpaque()\n\n    ",
    );
    r.append(&gen_call_statement(function, types, swift_bridge_path));
    r.append("\n})");
    r
}

fn gen_callback_wrapper<T: BridgeableType>(
    function: &ParsedExternFn<T>,
    return_ty: &BridgedType<T>,
    types: &TypeDeclarations,
    swift_bridge_path: &Path,
) -> (r: String)
    requires
        return_ty.has(Aspect::SwiftType(TypePosition::FnReturn(HostLang::Rust)), types),
    ensures
        r@ == callback_wrapper(function, return_ty, types, swift_bridge_path),
{
    let indent = gen_indentation(function);
    let ret = return_ty.to_swift_type(
        TypePosition::FnReturn(HostLang::Rust),
        types,
        swift_bridge_path,
    );
    let error = gen_async_error_type(return_ty);
    let mut r = indent.to_string();
    r.append("class ");
    r.append(&gen_callback_wrapper_ty(function));
    r.append(" {\n");
    r.append(indent);
    r.append("    var cb: (Result<");
    r.append(&ret);
    r.append(", ");
    r.append(error);
    r.append(">) -> ()\n");
    r.append(indent);
    r.append("\n");
    r.append(indent);
    r.append("    public init(cb: @escaping (Result<");
    r.append(&ret);
    r.append(", ");
    r.append(error);
    r.append(">) -> ()) {\n");
    r.append(indent);
    r.append("        self.cb = cb\n");
    r.append(indent);
    r.append("    }\n");
    r.append(indent);
    r.append("}");
    r
}

fn gen_async_definition<T: BridgeableType>(
    function: &ParsedExternFn<T>,
    return_ty: &BridgedType<T>,
    types: &TypeDeclarations,
    swift_bridge_path: &Path,
) -> (r: String)
    requires
        function.is_callable_from_swift(types),
        function.is_async,
        function.built_in_return == Some(*return_ty),
    ensures
        r@ == async_definition(function, return_ty, types, swift_bridge_path),
{
    let indent = gen_indentation(function);
    let body = gen_async_body(function, return_ty, types, swift_bridge_path);
    let mut r = gen_head(function);
    r.append(" async");
    r.append(gen_return_type(function));
    r.append(" {\n");
    r.append(&indent_lines(&body, indent));
    r.append("\n");
    r.append(indent);
    r.append("}\n");
    r.append(&gen_callback_wrapper(function, return_ty, types, swift_bridge_path));
    r
}

/// The Swift function through which Swift calls a Rust function.
pub fn gen_func_swift_calls_rust<T: BridgeableType>(
    function: &ParsedExternFn<T>,
    types: &TypeDeclarations,
    swift_bridge_path: &Path,
) -> (r: String)
    requires
        function.is_callable_from_swift(types),
    ensures
        r@ == spec_gen_func_swift_calls_rust(function, types, swift_bridge_path),
{
    if function.is_async {
        if let Some(return_ty) = &function.built_in_return {
            return gen_async_definition(function, return_ty, types, swift_bridge_path);
        }
    }
    gen_sync_definition(function, types, swift_bridge_path)
}

} // verus!

//! What the Swift function for a Rust function is.
//!
//! Each law writes the source out, over what is known of the Rust function.
use syn::Path;
use vstd::prelude::*;

use crate::bridged_type::{Aspect, BridgeableType, TypePosition};
use crate::built_in::BridgedType;
use crate::declarations::{HostLang, TypeDeclaration, TypeDeclarations};
use crate::extern_fn::{
    ArgType, FailableInitializerType, FnArg, ParsedExternFn, ReturnType, Type,
};
use crate::function_laws;
use crate::generate_function_swift_calls_rust as generate;
use crate::text;
use crate::type_laws;

verus! {

/// `$first$second`, with the `$` between them.
pub open spec fn dollar(first: Seq<char>, second: Seq<char>) -> Seq<char> {
    first + "$"@ + second
}

/// `$start`, the type that the function belongs to, if it does to any, and the name of
/// the function, with a `$` before each.
pub open spec fn full_name<T: BridgeableType>(
    start: Seq<char>,
    function: &ParsedExternFn<T>,
) -> Seq<char> {
    match function.associated_type {
        Some(TypeDeclaration::Opaque(opaque)) => dollar(dollar(start, opaque.ty@), function.name@),
        _ => dollar(start, function.name@),
    }
}

proof fn lemma_full_name<T: BridgeableType>(start: Seq<char>, function: &ParsedExternFn<T>)
    ensures
        start + generate::type_name_segment(function) + "$"@ + function.name@ == full_name(
            start,
            function,
        ),
{
    reveal_strlit("");
    let segment = generate::type_name_segment(function);
    assert(start + segment + "$"@ + function.name@ =~= full_name(start, function));
}

/// The Rust function is called by its full name behind the prefix. A function that is
/// not `async` gets the arguments. One that is gets the callback and its wrapper first,
/// and then the arguments, if the function has any parameter at all.
pub proof fn law_rust_call_text<T: BridgeableType>(function: &ParsedExternFn<T>)
    ensures
        ({
            let name = full_name("__swift_bridge__"@, function);
            let call = generate::rust_call(function);
            let args = function.swift_call_args@;
            &&& !function.is_async ==> call == name + "("@ + args + ")"@
            &&& function.is_async && function.inputs@.len() > 0 ==> call == name
                + "(wrapperPtr, onComplete, "@ + args + ")"@
            &&& function.is_async && function.inputs@.len() == 0 ==> call == name
                + "(wrapperPtr, onComplete)"@
        }),
{
    lemma_full_name("__swift_bridge__"@, function);
    reveal_strlit("");
    reveal_strlit(", ");
    reveal_strlit(")");
    reveal_strlit("(wrapperPtr, onComplete");
    reveal_strlit("(wrapperPtr, onComplete, ");
    reveal_strlit("(wrapperPtr, onComplete)");
    assert("(wrapperPtr, onComplete"@ + ", "@ =~= "(wrapperPtr, onComplete, "@);
    assert("(wrapperPtr, onComplete"@ + ")"@ =~= "(wrapperPtr, onComplete)"@);
    let name = full_name("__swift_bridge__"@, function);
    let call = generate::rust_call(function);
    let args = function.swift_call_args@;
    if function.is_async {
        if function.inputs@.len() > 0 {
            assert(call =~= name + ("(wrapperPtr, onComplete"@ + ", "@) + args + ")"@);
        } else {
            assert(call =~= name + ("(wrapperPtr, onComplete"@ + ")"@));
        }
    }
}

/// The Swift function for an `async` function hands each argument on to Rust, whether
/// the function takes `self` or not: right behind the full name of the Rust function
/// stand the callback, its wrapper and the arguments. What stands there has no line
/// endings.
pub proof fn law_async_call_passes_arguments<T: BridgeableType>(
    function: &ParsedExternFn<T>,
    types: &TypeDeclarations,
    path: &Path,
)
    requires
        function.is_callable_from_swift(types),
        function.is_async,
        text::is_free_of(full_name("__swift_bridge__"@, function), '\n'),
        text::is_free_of(full_name("__swift_bridge__"@, function), '\r'),
        text::is_free_of(function.swift_call_args@, '\n'),
        text::is_free_of(function.swift_call_args@, '\r'),
    ensures
        ({
            let name = full_name("__swift_bridge__"@, function);
            let swift = generate::spec_gen_func_swift_calls_rust(function, types, path);
            &&& function.inputs@.len() > 0 ==> text::occurs(
                name + "(wrapperPtr, onComplete, "@ + function.swift_call_args@ + ")"@,
                swift,
            )
            &&& function.inputs@.len() == 0 ==> text::occurs(
                name + "(wrapperPtr, onComplete)"@,
                swift,
            )
        }),
{
    law_rust_call_text(function);
    reveal_strlit("(wrapperPtr, onComplete, ");
    reveal_strlit("(wrapperPtr, onComplete)");
    reveal_strlit(")");
    let call = generate::rust_call(function);
    assert(text::is_free_of(call, '\n') && text::is_free_of(call, '\r'));
    function_laws::law_async_function_calls_rust(function, types, path);
}

/// A string parameter puts what came before into a closure that has it as a `RustStr`,
/// and any other parameter changes nothing.
pub proof fn law_string_parameter_text(
    args: Seq<FnArg>,
    arg: FnArg,
    keyword: Seq<char>,
    margin: Seq<char>,
    call: Seq<char>,
)
    ensures
        generate::with_rust_strs(Seq::empty(), keyword, margin, call) == call,
        ({
            let inner = generate::with_rust_strs(args, keyword, margin, call);
            let outer = generate::with_rust_strs(args.push(arg), keyword, margin, call);
            let p = arg.name@;
            match arg.ty {
                ArgType::Str => outer == keyword + p + ".toRustStr({ "@ + p + "AsRustStr in\n"@
                    + margin + "        "@ + inner + "\n"@ + margin + "    })"@,
                ArgType::OptionalStr => outer == keyword + "optionalRustStrToRustStr("@ + p
                    + ", { "@ + p + "AsRustStr in\n"@ + margin + "        "@ + inner + "\n"@
                    + margin + "    })"@,
                ArgType::Other => outer == inner,
            }
        }),
{
    assert(args.push(arg).drop_last() =~= args);
}

/// The statement of a function that is no initializer is the call inside of its
/// closures. An initializer makes its object of it: a `Copy` type takes the bytes, and
/// any other one the pointer, if there is one where it can fail; an initializer that
/// throws has made its object in the call. The closures stand behind a `return` if and
/// only if the function is no initializer and returns something else than `()`.
pub proof fn law_call_statement_text<T: BridgeableType>(
    function: &ParsedExternFn<T>,
    types: &TypeDeclarations,
    path: &Path,
)
    ensures
        ({
            let returns_null = match function.built_in_return {
                Some(ty) => ty.spec_is_null(),
                None => false,
            };
            let init = function.is_swift_initializer;
            let copy = function.is_copy_method_on_opaque_type;
            let margin = if function.associated_type is Some {
                "    "@
            } else {
                ""@
            };
            let call = generate::converted_call(function, types, path);
            let silent = generate::with_rust_strs(function.inputs@, ""@, margin, call);
            let returning = generate::with_rust_strs(function.inputs@, "return "@, margin, call);
            let statement = generate::call_statement(function, types, path);
            &&& !init && !returns_null ==> statement == returning
            &&& !init && returns_null ==> statement == silent
            &&& init && copy ==> statement == "self.bytes = "@ + silent
            &&& init && !copy ==> match function.swift_failable_initializer {
                None => statement == "self.init(ptr: "@ + silent + ")"@,
                Some(FailableInitializerType::Option) => statement == "guard let val = "@ + silent
                    + " else { return nil }; self.init(ptr: val)"@,
                Some(FailableInitializerType::Throwing) => statement == silent,
            }
        }),
{
}

/// In an initializer no `return` stands before the closure of a string parameter.
pub proof fn law_initializer_closure_text<T: BridgeableType>(
    function: &ParsedExternFn<T>,
    arg: FnArg,
    types: &TypeDeclarations,
    path: &Path,
)
    requires
        function.is_swift_initializer,
        function.associated_type is Some,
        function.inputs@ == seq![arg],
        arg.ty == ArgType::Str,
    ensures
        ({
            let closure = arg.name@ + ".toRustStr({ "@ + arg.name@ + "AsRustStr in\n"@ + "    "@
                + "        "@ + generate::converted_call(function, types, path) + "\n"@ + "    "@
                + "    })"@;
            let statement = generate::call_statement(function, types, path);
            if function.is_copy_method_on_opaque_type {
                statement == "self.bytes = "@ + closure
            } else {
                match function.swift_failable_initializer {
                    None => statement == "self.init(ptr: "@ + closure + ")"@,
                    Some(FailableInitializerType::Option) => statement == "guard let val = "@
                        + closure + " else { return nil }; self.init(ptr: val)"@,
                    Some(FailableInitializerType::Throwing) => statement == closure,
                }
            }
        }),
{
    reveal_strlit("");
    law_call_statement_text(function, types, path);
    let call = generate::converted_call(function, types, path);
    law_string_parameter_text(Seq::empty(), arg, ""@, "    "@, call);
    assert(Seq::<FnArg>::empty().push(arg) =~= function.inputs@);
    assert(""@ + arg.name@ =~= arg.name@);
}

/// The value of the call is what the return type makes of it, where the bridge knows
/// that type. An `async` function and an initializer that does not throw take the call
/// as it is.
pub proof fn law_converted_call_text<T: BridgeableType>(
    function: &ParsedExternFn<T>,
    types: &TypeDeclarations,
    path: &Path,
)
    requires
        function.is_callable_from_swift(types),
    ensures
        ({
            let call = generate::rust_call(function);
            let value = generate::converted_call(function, types, path);
            let init = function.is_swift_initializer;
            let throws = function.swift_failable_initializer == Some(
                FailableInitializerType::Throwing,
            );
            &&& function.is_async ==> value == call
            &&& !function.is_async && init && !throws ==> value == call
            &&& !function.is_async && init && throws ==> match function.built_in_return {
                Some(ty) => value == ty.spec_convert_ffi_expression_to_swift_type(
                    call,
                    TypePosition::ThrowingInit(function.host_lang),
                    types,
                    path,
                ),
                None => false,
            }
            &&& !function.is_async && !init ==> match function.built_in_return {
                Some(ty) => value == ty.spec_convert_ffi_expression_to_swift_type(
                    call,
                    TypePosition::FnReturn(function.host_lang),
                    types,
                    path,
                ),
                None => function.host_lang == HostLang::Swift ==> value == call,
            }
        }),
{
}

/// A declared type is looked up by its name, without the `&` of a reference. A shared
/// type crosses the bridge as it is. Of an opaque Rust type Swift makes an object for
/// the pointer, which owns it unless it is a reference. Of an opaque Swift type it
/// takes the object back.
pub proof fn law_declared_value_text<T: BridgeableType>(
    function: &ParsedExternFn<T>,
    types: &TypeDeclarations,
    path: &Path,
)
    requires
        function.is_callable_from_swift(types),
        !function.is_async,
        !function.is_swift_initializer,
        function.built_in_return is None,
        function.host_lang == HostLang::Rust,
    ensures
        ({
            let call = generate::rust_call(function);
            let value = generate::converted_call(function, types, path);
            match function.output {
                ReturnType::Type(Type::Reference { elem, whole }) => {
                    &&& types@.dom().contains(elem@)
                    &&& match types@[elem@] {
                        TypeDeclaration::Shared => value == call,
                        TypeDeclaration::Opaque(opaque) => match opaque.host_lang {
                            HostLang::Rust => value == elem@ + "(ptr: "@ + call + ", isOwned: "@
                                + "false"@ + ")"@,
                            HostLang::Swift => value == "Unmanaged<"@ + whole@ + ">.fromOpaque("@
                                + call + ").takeRetainedValue()"@,
                        },
                    }
                },
                ReturnType::Type(Type::Path { segments, whole }) => {
                    &&& types@.dom().contains(segments@)
                    &&& match types@[segments@] {
                        TypeDeclaration::Shared => value == call,
                        TypeDeclaration::Opaque(opaque) => match opaque.host_lang {
                            HostLang::Rust => value == whole@ + "(ptr: "@ + call + ", isOwned: "@
                                + "true"@ + ")"@,
                            HostLang::Swift => value == "Unmanaged<"@ + whole@ + ">.fromOpaque("@
                                + call + ").takeRetainedValue()"@,
                        },
                    }
                },
                _ => false,
            }
        }),
{
}

/// The Swift function up to its parameters: the indentation of a type's functions, what
/// makes a function without `self` callable on the type, and the name in Swift, if the
/// function has one, or that in Rust. An initializer has no name.
pub proof fn law_head_text<T: BridgeableType>(function: &ParsedExternFn<T>)
    ensures
        ({
            let in_type = function.associated_type is Some;
            let init = function.is_swift_initializer;
            let copy = function.is_copy_method_on_opaque_type;
            let end = function.swift_generics@ + "("@ + function.swift_params@ + ")"@;
            let name = match function.swift_name_override {
                Some(swift_name) => swift_name@,
                None => function.name@,
            };
            let optional = function.swift_failable_initializer == Some(
                FailableInitializerType::Option,
            );
            let head = generate::head(function);
            &&& !init && !in_type ==> head == "public func "@ + name + end
            &&& !init && in_type && function.is_method ==> head == "    public func "@ + name + end
            &&& !init && in_type && !function.is_method && copy ==> head
                == "    static public func "@ + name + end
            &&& !init && in_type && !function.is_method && !copy ==> head
                == "    class public func "@ + name + end
            &&& init && !in_type && copy ==> head == "public init"@ + end
            &&& init && in_type && copy ==> head == "    public init"@ + end
            &&& init && !in_type && !copy && optional ==> head == "public convenience init?"@ + end
            &&& init && in_type && !copy && optional ==> head == "    public convenience init?"@
                + end
            &&& init && !in_type && !copy && !optional ==> head == "public convenience init"@ + end
            &&& init && in_type && !copy && !optional ==> head == "    public convenience init"@
                + end
        }),
{
    reveal_strlit("");
    reveal_strlit("    ");
    reveal_strlit("static ");
    reveal_strlit("class ");
    reveal_strlit("public func ");
    reveal_strlit("public init");
    reveal_strlit("public convenience init");
    reveal_strlit("public convenience init?");
    reveal_strlit("    public func ");
    reveal_strlit("    static public func ");
    reveal_strlit("    class public func ");
    reveal_strlit("    public init");
    reveal_strlit("    public convenience init");
    reveal_strlit("    public convenience init?");
    let name = match function.swift_name_override {
        Some(swift_name) => swift_name@,
        None => function.name@,
    };
    let end = function.swift_generics@ + "("@ + function.swift_params@ + ")"@;
    let start = generate::indentation(function) + generate::static_or_class(function)
        + generate::public_func_name(function);
    assert(generate::head(function) =~= start + end);
    assert(""@ + ""@ + ("public func "@ + name) =~= "public func "@ + name);
    assert("    "@ + ""@ + ("public func "@ + name) =~= "    public func "@ + name);
    assert("    "@ + "static "@ + ("public func "@ + name) =~= "    static public func "@ + name);
    assert("    "@ + "class "@ + ("public func "@ + name) =~= "    class public func "@ + name);
    assert(""@ + ""@ + "public init"@ =~= "public init"@);
    assert("    "@ + ""@ + "public init"@ =~= "    public init"@);
    assert(""@ + ""@ + "public convenience init"@ =~= "public convenience init"@);
    assert("    "@ + ""@ + "public convenience init"@ =~= "    public convenience init"@);
    assert(""@ + ""@ + "public convenience init?"@ =~= "public convenience init?"@);
    assert("    "@ + ""@ + "public convenience init?"@ =~= "    public convenience init?"@);
}

/// The Swift function for a function that is not `async`: its head, `throws` if the
/// initializer throws, the return type unless it is an initializer, and the statement
/// on a line of its own, indented by four spaces more.
pub proof fn law_sync_function_text<T: BridgeableType>(
    function: &ParsedExternFn<T>,
    types: &TypeDeclarations,
    path: &Path,
)
    requires
        !function.is_async,
    ensures
        ({
            let throws = function.swift_failable_initializer == Some(
                FailableInitializerType::Throwing,
            );
            let in_type = function.associated_type is Some;
            let statement = generate::call_statement(function, types, path);
            let swift = generate::spec_gen_func_swift_calls_rust(function, types, path);
            let middle = (if throws {
                " throws"@
            } else {
                ""@
            }) + (if function.is_swift_initializer {
                ""@
            } else {
                function.swift_return_type@
            });
            &&& in_type ==> swift == generate::head(function) + middle + " {\n        "@
                + statement + "\n    }"@
            &&& !in_type ==> swift == generate::head(function) + middle + " {\n    "@ + statement
                + "\n}"@
        }),
{
    reveal_strlit("");
    reveal_strlit("    ");
    reveal_strlit("\n");
    reveal_strlit("}");
    reveal_strlit(" {\n");
    reveal_strlit(" {\n    ");
    reveal_strlit(" {\n        ");
    reveal_strlit("\n}");
    reveal_strlit("\n    }");
    assert(" {\n"@ + ""@ + "    "@ =~= " {\n    "@);
    assert(" {\n"@ + "    "@ + "    "@ =~= " {\n        "@);
    assert("\n"@ + ""@ + "}"@ =~= "\n}"@);
    assert("\n"@ + "    "@ + "}"@ =~= "\n    }"@);
    let margin = generate::indentation(function);
    let statement = generate::call_statement(function, types, path);
    let swift = generate::spec_gen_func_swift_calls_rust(function, types, path);
    let middle = generate::throws_text(function) + generate::return_type_text(function);
    assert(swift =~= generate::head(function) + middle + (" {\n"@ + margin + "    "@) + statement
        + ("\n"@ + margin + "}"@));
}

/// The body of the Swift function for an `async` function. The function for the
/// callback takes what Rust returns, unless it is `()`, and hands it to the wrapper. The
/// rest waits for that and calls Rust.
pub open spec fn waiting_body<T: BridgeableType>(
    function: &ParsedExternFn<T>,
    handed_over: Seq<char>,
    run: Seq<char>,
    wait: Seq<char>,
    returned: Seq<char>,
    error: Seq<char>,
    statement: Seq<char>,
) -> Seq<char> {
    let class = full_name("CbWrapper"@, function);
    "func onComplete(cbWrapperPtr: UnsafeMutableRawPointer?"@ + handed_over
        + ") {\n    let wrapper = Unmanaged<"@ + class
        + ">.fromOpaque(cbWrapperPtr!).takeRetainedValue()\n    "@ + run + "\n}\n\n"@ + wait
        + "({ (continuation: CheckedContinuation<"@ + returned + ", "@ + error
        + ">) in\n    let callback = { rustFnRetVal in\n        continuation.resume(with: rustFnRetVal)\n    }\n\n    let wrapper = "@
        + class
        + "(cb: callback)\n    let wrapperPtr = Unmanaged.passRetained(wrapper).toOpaque()\n\n    "@
        + statement + "\n})"@
}

/// The class for the callback, with `margin` before each line.
pub open spec fn callback_class<T: BridgeableType>(
    function: &ParsedExternFn<T>,
    margin: Seq<char>,
    returned: Seq<char>,
    error: Seq<char>,
) -> Seq<char> {
    margin + "class "@ + full_name("CbWrapper"@, function) + " {\n"@ + margin
        + "    var cb: (Result<"@ + returned + ", "@ + error + ">) -> ()\n"@ + margin + "\n"@
        + margin + "    public init(cb: @escaping (Result<"@ + returned + ", "@ + error
        + ">) -> ()) {\n"@ + margin + "        self.cb = cb\n"@ + margin + "    }\n"@ + margin
        + "}"@
}

/// The Swift function for an `async` function, and the class for its callback behind
/// it. A result is waited for with `try` and can give an error, and its callback gets
/// what the result makes of the value. Any other value never gives an error, and the
/// callback gets it as a success: `()`, or what its type makes of it.
pub proof fn law_async_function_text<T: BridgeableType>(
    function: &ParsedExternFn<T>,
    types: &TypeDeclarations,
    path: &Path,
)
    requires
        function.is_callable_from_swift(types),
        function.is_async,
    ensures
        function.built_in_return is Some,
        ({
            let ty = function.built_in_return->0;
            let in_rust = TypePosition::FnReturn(HostLang::Rust);
            let over = TypePosition::SwiftCallsRustAsyncOnCompleteReturnTy;
            let margin = if function.associated_type is Some {
                "    "@
            } else {
                ""@
            };
            let returned = ty.spec_to_swift_type(in_rust, types, path);
            let param = ", rustFnRetVal: "@ + ty.spec_to_swift_type(over, types, path);
            let statement = generate::call_statement(function, types, path);
            let behind = if function.is_swift_initializer {
                ""@
            } else {
                function.swift_return_type@
            };
            let swift = generate::spec_gen_func_swift_calls_rust(function, types, path);
            let start = generate::head(function) + " async"@ + behind + " {\n"@;
            let body = match ty {
                BridgedType::Result(result) => waiting_body(
                    function,
                    param,
                    result.spec_generate_swift_calls_async_rust_callback(
                        "rustFnRetVal"@,
                        in_rust,
                        types,
                        path,
                    ),
                    "return try await withCheckedThrowingContinuation"@,
                    returned,
                    "Error"@,
                    statement,
                ),
                BridgedType::Other(other) => if other.spec_is_null() {
                    waiting_body(
                        function,
                        ""@,
                        "wrapper.cb(.success("@ + "()"@ + "))"@,
                        "return await withCheckedContinuation"@,
                        returned,
                        "Never"@,
                        statement,
                    )
                } else {
                    waiting_body(
                        function,
                        param,
                        "wrapper.cb(.success("@ + other.spec_convert_ffi_expression_to_swift_type(
                            "rustFnRetVal"@,
                            over,
                            types,
                            path,
                        ) + "))"@,
                        "return await withCheckedContinuation"@,
                        returned,
                        "Never"@,
                        statement,
                    )
                },
            };
            let error = match ty {
                BridgedType::Result(_) => "Error"@,
                BridgedType::Other(_) => "Never"@,
            };
            swift == start + generate::indented(body, margin) + "\n"@ + margin + "}\n"@
                + callback_class(function, margin, returned, error)
        }),
{
    lemma_full_name("CbWrapper"@, function);
}

/// Swift can call any function that belongs to no shared type and whose return type
/// the bridge can turn into a Swift value. One that is neither `async` nor an
/// initializer, and written in Rust, may also return a declared type.
pub proof fn law_callable_functions<T: BridgeableType>(
    function: &ParsedExternFn<T>,
    types: &TypeDeclarations,
)
    ensures
        ({
            let callable = function.is_callable_from_swift(types);
            let init = function.is_swift_initializer;
            let throws = function.swift_failable_initializer == Some(
                FailableInitializerType::Throwing,
            );
            let declared = match function.output {
                ReturnType::Type(Type::Reference { elem, .. }) => types@.dom().contains(elem@),
                ReturnType::Type(Type::Path { segments, .. }) => types@.dom().contains(segments@),
                _ => false,
            };
            &&& function.associated_type == Some(TypeDeclaration::Shared) ==> !callable
            &&& function.associated_type != Some(TypeDeclaration::Shared) ==> {
                &&& function.is_async && function.built_in_return is None ==> !callable
                &&& !function.is_async && init && !throws ==> callable
                &&& !function.is_async && init && throws && function.built_in_return is None
                    ==> !callable
                &&& !function.is_async && !init && function.built_in_return is None ==> (callable
                    <==> function.host_lang == HostLang::Swift || declared)
                &&& function.built_in_return matches Some(ty) ==> {
                    let lang = function.host_lang;
                    &&& !function.is_async && init && throws ==> (callable <==> ty.has(
                        Aspect::FfiToSwift(TypePosition::ThrowingInit(lang)),
                        types,
                    ))
                    &&& !function.is_async && !init ==> (callable <==> ty.has(
                        Aspect::FfiToSwift(TypePosition::FnReturn(lang)),
                        types,
                    ))
                }
            }
        }),
{
}

/// Swift can call an `async` function of no shared type that returns a type with every
/// aspect, or a result of two such types whose error takes up memory.
pub proof fn law_callable_async_functions<T: BridgeableType>(
    function: &ParsedExternFn<T>,
    types: &TypeDeclarations,
)
    requires
        function.is_async,
        function.associated_type != Some(TypeDeclaration::Shared),
        function.built_in_return matches Some(ty) && match ty {
            BridgedType::Result(result) => {
                &&& forall|a: Aspect| #[trigger] result.ok_ty.has(a, types)
                &&& forall|a: Aspect| #[trigger] result.err_ty.has(a, types)
                &&& !result.err_ty.spec_can_be_encoded_with_zero_bytes()
            },
            BridgedType::Other(other) => forall|a: Aspect| #[trigger] other.has(a, types),
        },
    ensures
        function.is_callable_from_swift(types),
{
    if let Some(BridgedType::Result(result)) = function.built_in_return {
        type_laws::law_result_aspects(
            &result,
            Aspect::SwiftType(TypePosition::FnReturn(HostLang::Rust)),
            types,
        );
        type_laws::law_result_aspects(
            &result,
            Aspect::SwiftType(TypePosition::SwiftCallsRustAsyncOnCompleteReturnTy),
            types,
        );
    }
}

/// What an `async` function needs of the type that it returns: a Swift type where it is
/// returned and where it is handed over, and a way to its callback. Of `()` it needs the
/// first only.
pub proof fn law_async_return_types<T: BridgeableType>(
    function: &ParsedExternFn<T>,
    types: &TypeDeclarations,
)
    requires
        function.is_async,
        function.associated_type != Some(TypeDeclaration::Shared),
    ensures
        ({
            let in_rust = TypePosition::FnReturn(HostLang::Rust);
            let over = TypePosition::SwiftCallsRustAsyncOnCompleteReturnTy;
            function.is_callable_from_swift(types) <==> match function.built_in_return {
                None => false,
                Some(BridgedType::Result(result)) => {
                    &&& result.has(Aspect::SwiftType(in_rust), types)
                    &&& result.has(Aspect::SwiftType(over), types)
                    &&& result.has_callback(in_rust, types)
                },
                Some(BridgedType::Other(other)) => {
                    &&& other.has(Aspect::SwiftType(in_rust), types)
                    &&& other.spec_is_null() || {
                        &&& other.has(Aspect::SwiftType(over), types)
                        &&& other.has(Aspect::FfiToSwift(over), types)
                    }
                },
            }
        }),
{
}

} // verus!

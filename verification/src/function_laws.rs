//! What holds of the Swift functions through which Swift calls Rust.
use syn::Path;
use vstd::prelude::*;

use crate::bridged_type::{BridgeableType, TypePosition};
use crate::declarations::{HostLang, TypeDeclaration, TypeDeclarations};
use crate::built_in::BridgedType;
use crate::extern_fn::{ArgType, FnArg, ParsedExternFn, ReturnType, Type};
use crate::generate_function_swift_calls_rust as generate;
use crate::result_laws;
use crate::text;

verus! {

/// A line of a body in the place that it has in a function.
pub open spec fn placed_line(line: Seq<char>, indentation: Seq<char>) -> Seq<char> {
    if line.len() == 0 {
        line
    } else {
        indentation + "    "@ + line
    }
}

/// The lines of a body in the places that they have in a function.
pub open spec fn placed_lines(lines: Seq<Seq<char>>, indentation: Seq<char>) -> Seq<Seq<char>> {
    Seq::new(lines.len(), |i: int| placed_line(lines[i], indentation))
}

proof fn lemma_placed_line(line: Seq<char>, indentation: Seq<char>)
    requires
        text::is_free_of(indentation, '\n'),
        text::is_free_of(line, '\n'),
        text::is_free_of(line, '\r'),
    ensures
        generate::indented_line(line, indentation) == placed_line(line, indentation).push('\n'),
        text::is_free_of(placed_line(line, indentation), '\n'),
        line.len() > 0 ==> placed_line(line, indentation).last() == line.last(),
{
    reveal_strlit("\n");
    reveal_strlit("    ");
    assert(generate::indented_line(line, indentation) =~= placed_line(line, indentation).push(
        '\n',
    ));
}

proof fn lemma_indented_lines(lines: Seq<Seq<char>>, indentation: Seq<char>)
    requires
        text::is_free_of(indentation, '\n'),
        forall|i: int| 0 <= i < lines.len() ==> text::is_free_of(#[trigger] lines[i], '\n'),
        forall|i: int| 0 <= i < lines.len() ==> text::is_free_of(#[trigger] lines[i], '\r'),
    ensures
        text::lines_of(generate::indented_lines(lines, indentation)) == placed_lines(
            lines,
            indentation,
        ),
        lines.len() > 0 ==> generate::indented_lines(lines, indentation).len() > 0
            && generate::indented_lines(lines, indentation).last() == '\n',
        lines.len() == 0 ==> generate::indented_lines(lines, indentation).len() == 0,
    decreases lines.len(),
{
    if lines.len() == 0 {
        reveal_strlit("");
        assert(placed_lines(lines, indentation) =~= Seq::<Seq<char>>::empty());
    } else {
        let init = lines.drop_last();
        let line = lines.last();
        assert(line == lines[lines.len() - 1]);
        assert forall|i: int| 0 <= i < init.len() implies text::is_free_of(#[trigger] init[i], '\n')
            && text::is_free_of(init[i], '\r') by {
            assert(init[i] == lines[i]);
        }
        lemma_indented_lines(init, indentation);
        lemma_placed_line(line, indentation);
        text::law_lines_of_added_line(
            generate::indented_lines(init, indentation),
            placed_line(line, indentation),
        );
        assert(placed_lines(init, indentation).push(placed_line(line, indentation))
            =~= placed_lines(lines, indentation));
    }
}

proof fn lemma_indented_without_carriage_returns(lines: Seq<Seq<char>>, indentation: Seq<char>)
    requires
        text::is_free_of(indentation, '\r'),
        forall|i: int| 0 <= i < lines.len() ==> text::is_free_of(#[trigger] lines[i], '\r'),
    ensures
        text::is_free_of(generate::indented_lines(lines, indentation), '\r'),
    decreases lines.len(),
{
    reveal_strlit("");
    reveal_strlit("\n");
    reveal_strlit("    ");
    if lines.len() > 0 {
        let init = lines.drop_last();
        assert forall|i: int| 0 <= i < init.len() implies text::is_free_of(
            #[trigger] init[i],
            '\r',
        ) by {
            assert(init[i] == lines[i]);
        }
        assert(lines.last() == lines[lines.len() - 1]);
        lemma_indented_without_carriage_returns(init, indentation);
    }
}

/// Indenting a body keeps its lines, and how it ends. An empty line stays empty, and
/// every other one has the indentation of the function and four spaces before it. No
/// carriage returns come in.
pub proof fn law_indenting_keeps_lines(body: Seq<char>, indentation: Seq<char>)
    requires
        body.len() > 0,
        !text::is_white_space(body.last()),
        text::is_free_of(body, '\r'),
        text::is_free_of(indentation, '\n'),
    ensures
        text::lines_of(generate::indented(body, indentation)) == placed_lines(
            text::lines_of(body),
            indentation,
        ),
        generate::indented(body, indentation).len() > 0,
        generate::indented(body, indentation).last() == body.last(),
        text::is_free_of(indentation, '\r') ==> text::is_free_of(
            generate::indented(body, indentation),
            '\r',
        ),
{
    let lines = text::lines_of(body);
    text::law_lines_are_free_of(body, '\n');
    text::law_lines_are_free_of(body, '\r');
    text::law_last_line(body);
    lemma_indented_lines(lines, indentation);
    let whole = generate::indented_lines(lines, indentation);
    let last = lines.last();
    assert(last == lines[lines.len() - 1]);
    lemma_placed_line(last, indentation);
    let cut = whole.drop_last();
    assert(cut =~= generate::indented_lines(lines.drop_last(), indentation) + placed_line(
        last,
        indentation,
    ));
    assert(cut.last() == body.last());
    assert(text::trimmed_end(whole) == text::trimmed_end(cut));
    assert(text::trimmed_end(cut) == cut);
    text::law_lines_of_ended_text(cut);
    assert(cut.push('\n') =~= whole);
    if text::is_free_of(indentation, '\r') {
        lemma_indented_without_carriage_returns(lines, indentation);
    }
}

/// A line is empty, or has the indentation of the function and four spaces before it.
pub open spec fn is_placed(line: Seq<char>, indentation: Seq<char>) -> bool {
    line.len() == 0 || (indentation + "    "@).is_prefix_of(line)
}

proof fn lemma_lines_are_placed(lines: Seq<Seq<char>>, indentation: Seq<char>)
    requires
        text::is_free_of(indentation, '\n'),
        forall|i: int| 0 <= i < lines.len() ==> text::is_free_of(#[trigger] lines[i], '\n'),
    ensures
        ({
            let whole = generate::indented_lines(lines, indentation);
            &&& whole.len() > 0 ==> whole.last() == '\n'
            &&& forall|i: int|
                0 <= i < text::lines_of(whole).len() ==> is_placed(
                    #[trigger] text::lines_of(whole)[i],
                    indentation,
                )
        }),
    decreases lines.len(),
{
    reveal_strlit("");
    reveal_strlit("\n");
    reveal_strlit("    ");
    if lines.len() > 0 {
        let init = lines.drop_last();
        let line = lines.last();
        let start = indentation + "    "@;
        assert(line == lines[lines.len() - 1]);
        assert forall|i: int| 0 <= i < init.len() implies text::is_free_of(
            #[trigger] init[i],
            '\n',
        ) by {
            assert(init[i] == lines[i]);
        }
        lemma_lines_are_placed(init, indentation);
        let placed = placed_line(line, indentation);
        assert(generate::indented_line(line, indentation) =~= placed.push('\n'));
        assert(text::is_free_of(placed, '\n'));
        let before = generate::indented_lines(init, indentation);
        text::law_lines_of_added_line(before, placed);
        let added = text::without_carriage_return(placed);
        if line.len() > 0 {
            assert(added.subrange(0, start.len() as int) =~= start);
        }
        assert(generate::indented_lines(lines, indentation) =~= before + placed.push('\n'));
        let all = text::lines_of(before).push(added);
        assert forall|i: int| 0 <= i < all.len() implies is_placed(
            #[trigger] all[i],
            indentation,
        ) by {
            if i < all.len() - 1 {
                assert(all[i] == text::lines_of(before)[i]);
            }
        }
    }
}

proof fn lemma_trimmed_lines_are_placed(lines: Seq<Seq<char>>, indentation: Seq<char>)
    requires
        text::is_free_of(indentation, '\n'),
        forall|i: int|
            0 <= i < indentation.len() ==> text::is_white_space(#[trigger] indentation[i]),
        forall|i: int| 0 <= i < lines.len() ==> text::is_free_of(#[trigger] lines[i], '\n'),
    ensures
        ({
            let cut = text::trimmed_end(generate::indented_lines(lines, indentation));
            forall|i: int|
                0 <= i < text::lines_of(cut).len() ==> is_placed(
                    #[trigger] text::lines_of(cut)[i],
                    indentation,
                )
        }),
    decreases lines.len(),
{
    reveal_strlit("");
    reveal_strlit("\n");
    reveal_strlit("    ");
    if lines.len() > 0 {
        let init = lines.drop_last();
        let line = lines.last();
        let start = indentation + "    "@;
        assert(line == lines[lines.len() - 1]);
        assert forall|i: int| 0 <= i < init.len() implies text::is_free_of(
            #[trigger] init[i],
            '\n',
        ) by {
            assert(init[i] == lines[i]);
        }
        let before = generate::indented_lines(init, indentation);
        let block = generate::indented_line(line, indentation);
        text::lemma_trimmed_end_of_sum(before, block);
        if text::trimmed_end(block).len() == 0 {
            lemma_trimmed_lines_are_placed(init, indentation);
        } else {
            lemma_lines_are_placed(init, indentation);
            text::lemma_trimmed_end(block);
            text::lemma_trimmed_end("\n"@);
            assert(line.len() > 0);
            text::lemma_trimmed_end_of_sum(start + line, "\n"@);
            text::lemma_trimmed_end_of_sum(start, line);
            text::lemma_trimmed_end(start);
            text::lemma_trimmed_end(line);
            let last = start + text::trimmed_end(line);
            assert(text::trimmed_end(block) == last);
            assert(text::is_free_of(last, '\n'));
            text::law_lines_of_added_line(before, last);
            text::law_lines_of_ended_text(before + last);
            assert((before + last).push('\n') =~= before + last.push('\n'));
            assert(last.subrange(0, start.len() as int) =~= start);
            let all = text::lines_of(before).push(last);
            assert forall|i: int| 0 <= i < all.len() implies is_placed(
                #[trigger] all[i],
                indentation,
            ) by {
                if i < all.len() - 1 {
                    assert(all[i] == text::lines_of(before)[i]);
                }
            }
        }
    }
}

/// Whatever the body is, each line of the indented body is empty, or has the
/// indentation of the function and four spaces before it.
pub proof fn law_indented_lines_are_placed(body: Seq<char>, indentation: Seq<char>)
    requires
        text::is_free_of(indentation, '\n'),
        forall|i: int|
            0 <= i < indentation.len() ==> text::is_white_space(#[trigger] indentation[i]),
    ensures
        forall|i: int|
            0 <= i < text::lines_of(generate::indented(body, indentation)).len() ==> is_placed(
                #[trigger] text::lines_of(generate::indented(body, indentation))[i],
                indentation,
            ),
{
    text::law_lines_are_free_of(body, '\n');
    lemma_trimmed_lines_are_placed(text::lines_of(body), indentation);
}

/// A call without string parameters stands in no closure.
pub proof fn law_only_strings_need_closures(
    args: Seq<FnArg>,
    return_keyword: Seq<char>,
    indentation: Seq<char>,
    call: Seq<char>,
)
    requires
        forall|i: int| 0 <= i < args.len() ==> (#[trigger] args[i]).ty == ArgType::Other,
    ensures
        generate::with_rust_strs(args, return_keyword, indentation, call) == call,
    decreases args.len(),
{
    if args.len() > 0 {
        assert(args.last() == args[args.len() - 1]);
        assert forall|i: int| 0 <= i < args.drop_last().len() implies (
        #[trigger] args.drop_last()[i]).ty == ArgType::Other by {
            assert(args.drop_last()[i] == args[i]);
        }
        law_only_strings_need_closures(args.drop_last(), return_keyword, indentation, call);
    }
}

/// Where the return type is neither a result nor declared, the Swift source that
/// converts the value holds the call.
pub open spec fn conversion_keeps_call<T: BridgeableType>(
    function: &ParsedExternFn<T>,
    types: &TypeDeclarations,
    swift_bridge_path: &Path,
) -> bool {
    let type_pos = if function.is_swift_initializer {
        TypePosition::ThrowingInit(function.host_lang)
    } else {
        TypePosition::FnReturn(function.host_lang)
    };
    match function.built_in_return {
        Some(BridgedType::Other(ty)) => text::occurs(
            generate::rust_call(function),
            ty.spec_convert_ffi_expression_to_swift_type(
                generate::rust_call(function),
                type_pos,
                types,
                swift_bridge_path,
            ),
        ),
        _ => true,
    }
}

proof fn lemma_converted_call<T: BridgeableType>(
    function: &ParsedExternFn<T>,
    types: &TypeDeclarations,
    swift_bridge_path: &Path,
)
    requires
        function.is_callable_from_swift(types),
        function.is_async || conversion_keeps_call(function, types, swift_bridge_path),
    ensures
        text::occurs(
            generate::rust_call(function),
            generate::converted_call(function, types, swift_bridge_path),
        ),
{
    let call = generate::rust_call(function);
    text::lemma_occurs_itself(call);
    if !function.is_async {
        if let Some(BridgedType::Result(result)) = function.built_in_return {
            if function.is_swift_initializer {
                if function.throws() {
                    result_laws::law_conversion_keeps_expression(
                        &result,
                        call,
                        TypePosition::ThrowingInit(function.host_lang),
                        types,
                        swift_bridge_path,
                    );
                }
            } else {
                result_laws::law_conversion_keeps_expression(
                    &result,
                    call,
                    TypePosition::FnReturn(function.host_lang),
                    types,
                    swift_bridge_path,
                );
            }
        }
        if function.built_in_return is None && !function.is_swift_initializer {
            match function.output {
                ReturnType::Type(Type::Reference { elem, whole }) => {
                    lemma_declared_type_keeps_call(
                        call,
                        Type::Reference { elem, whole },
                        types@[elem@],
                    );
                },
                ReturnType::Type(Type::Path { segments, whole }) => {
                    lemma_declared_type_keeps_call(
                        call,
                        Type::Path { segments, whole },
                        types@[segments@],
                    );
                },
                _ => {},
            }
        }
    }
}

proof fn lemma_declared_type_keeps_call(call: Seq<char>, ty: Type, decl: TypeDeclaration)
    ensures
        text::occurs(call, generate::declared_type_to_swift_value(call, ty, decl)),
{
    text::lemma_occurs_itself(call);
    let name = match (decl, ty) {
        (TypeDeclaration::Opaque(opaque), Type::Reference { elem, whole }) => {
            if opaque.host_lang == HostLang::Rust {
                elem@
            } else {
                whole@
            }
        },
        (_, Type::Path { segments, whole }) => whole@,
        _ => call,
    };
    let owned = match ty {
        Type::Reference { .. } => "false"@,
        _ => "true"@,
    };
    text::lemma_occurs_between(call, name + "(ptr: "@, call, ", isOwned: "@);
    text::lemma_occurs_between(
        call,
        Seq::empty(),
        name + "(ptr: "@ + call + ", isOwned: "@,
        owned,
    );
    text::lemma_occurs_between(
        call,
        Seq::empty(),
        name + "(ptr: "@ + call + ", isOwned: "@ + owned,
        ")"@,
    );
    text::lemma_occurs_between(
        call,
        "Unmanaged<"@ + name + ">.fromOpaque("@,
        call,
        ").takeRetainedValue()"@,
    );
}

proof fn lemma_with_rust_strs(
    args: Seq<FnArg>,
    return_keyword: Seq<char>,
    indentation: Seq<char>,
    part: Seq<char>,
    call: Seq<char>,
)
    requires
        text::occurs(part, call),
    ensures
        text::occurs(part, generate::with_rust_strs(args, return_keyword, indentation, call)),
    decreases args.len(),
{
    if args.len() > 0 {
        let arg = args.last();
        let inner = generate::with_rust_strs(args.drop_last(), return_keyword, indentation, call);
        lemma_with_rust_strs(args.drop_last(), return_keyword, indentation, part, call);
        let before = match arg.ty {
            ArgType::Str => return_keyword + arg.name@ + ".toRustStr({ "@ + arg.name@
                + "AsRustStr in\n"@ + indentation + "        "@,
            _ => return_keyword + "optionalRustStrToRustStr("@ + arg.name@ + ", { "@ + arg.name@
                + "AsRustStr in\n"@ + indentation + "        "@,
        };
        text::lemma_occurs_between(part, before, inner, "\n"@);
        text::lemma_occurs_between(
            part,
            Seq::empty(),
            before + inner + "\n"@,
            indentation,
        );
        text::lemma_occurs_between(
            part,
            Seq::empty(),
            before + inner + "\n"@ + indentation,
            "    })"@,
        );
    }
}

proof fn lemma_call_statement<T: BridgeableType>(
    function: &ParsedExternFn<T>,
    types: &TypeDeclarations,
    swift_bridge_path: &Path,
)
    requires
        function.is_callable_from_swift(types),
        function.is_async || conversion_keeps_call(function, types, swift_bridge_path),
    ensures
        text::occurs(
            generate::rust_call(function),
            generate::call_statement(function, types, swift_bridge_path),
        ),
{
    let part = generate::rust_call(function);
    let converted = generate::converted_call(function, types, swift_bridge_path);
    let keyword = generate::return_keyword(function);
    let indentation = generate::indentation(function);
    let inner = generate::with_rust_strs(function.inputs@, keyword, indentation, converted);
    lemma_converted_call(function, types, swift_bridge_path);
    lemma_with_rust_strs(function.inputs@, keyword, indentation, part, converted);
    text::lemma_occurs_between(part, "self.bytes = "@, inner, Seq::empty());
    text::lemma_occurs_between(
        part,
        "guard let val = "@,
        inner,
        " else { return nil }; self.init(ptr: val)"@,
    );
    text::lemma_occurs_between(part, "self.init(ptr: "@, inner, ")"@);
}

/// The Swift function for a function that is not `async` calls the Rust function.
pub proof fn law_sync_function_calls_rust<T: BridgeableType>(
    function: &ParsedExternFn<T>,
    types: &TypeDeclarations,
    swift_bridge_path: &Path,
)
    requires
        function.is_callable_from_swift(types),
        !function.is_async,
        conversion_keeps_call(function, types, swift_bridge_path),
    ensures
        text::occurs(
            generate::rust_call(function),
            generate::spec_gen_func_swift_calls_rust(function, types, swift_bridge_path),
        ),
{
    let part = generate::rust_call(function);
    let statement = generate::call_statement(function, types, swift_bridge_path);
    let indentation = generate::indentation(function);
    let before = generate::head(function) + generate::throws_text(function)
        + generate::return_type_text(function) + " {\n"@ + indentation + "    "@;
    lemma_call_statement(function, types, swift_bridge_path);
    text::lemma_occurs_between(part, before, statement, "\n"@);
    text::lemma_occurs_between(part, Seq::empty(), before + statement + "\n"@, indentation);
    text::lemma_occurs_between(
        part,
        Seq::empty(),
        before + statement + "\n"@ + indentation,
        "}"@,
    );
}

proof fn lemma_line_in_indented_lines(
    part: Seq<char>,
    lines: Seq<Seq<char>>,
    i: int,
    indentation: Seq<char>,
)
    requires
        0 <= i < lines.len(),
        part.len() > 0,
        text::occurs(part, lines[i]),
    ensures
        text::occurs(part, generate::indented_lines(lines, indentation)),
    decreases lines.len(),
{
    let init = generate::indented_lines(lines.drop_last(), indentation);
    let last = generate::indented_line(lines.last(), indentation);
    if i == lines.len() - 1 {
        let line = lines.last();
        assert(line.len() > 0) by {
            let (b, h) = choose|b: Seq<char>, h: Seq<char>| line == #[trigger] (b + part + h);
        }
        text::lemma_occurs_between(part, indentation + "    "@, line, "\n"@);
        text::lemma_occurs_between(part, init, last, Seq::empty());
    } else {
        lemma_line_in_indented_lines(part, lines.drop_last(), i, indentation);
        text::lemma_occurs_between(part, Seq::empty(), init, last);
    }
}

proof fn lemma_indented_keeps_part(part: Seq<char>, body: Seq<char>, indentation: Seq<char>)
    requires
        text::occurs(part, body),
        part.len() > 0,
        text::is_free_of(part, '\n'),
        text::is_free_of(part, '\r'),
        body.len() > 0,
        !text::is_white_space(body.last()),
    ensures
        text::occurs(part, generate::indented(body, indentation)),
{
    let lines = text::lines_of(body);
    let i = text::lemma_occurs_in_line(part, body);
    lemma_line_in_indented_lines(part, lines, i, indentation);
    text::law_last_line(body);
    let whole = generate::indented_lines(lines, indentation);
    let cut = whole.drop_last();
    reveal_strlit("\n");
    assert(whole.last() == '\n');
    assert(cut.last() == body.last());
    assert(text::trimmed_end(whole) == text::trimmed_end(cut));
    assert(text::trimmed_end(cut) == cut);
    let (b, h) = choose|b: Seq<char>, h: Seq<char>| whole == #[trigger] (b + part + h);
    assert(h.len() > 0) by {
        if h.len() == 0 {
            assert(whole.last() == part[part.len() - 1]);
        }
    }
    assert(cut =~= b + part + h.drop_last());
}

proof fn lemma_async_body<T: BridgeableType>(
    function: &ParsedExternFn<T>,
    return_ty: &BridgedType<T>,
    types: &TypeDeclarations,
    swift_bridge_path: &Path,
)
    requires
        function.is_callable_from_swift(types),
        function.is_async,
    ensures
        ({
            let body = generate::async_body(function, return_ty, types, swift_bridge_path);
            &&& text::occurs(generate::rust_call(function), body)
            &&& body.len() > 0
            &&& body.last() == ')'
        }),
{
    let statement = generate::call_statement(function, types, swift_bridge_path);
    let body = generate::async_body(function, return_ty, types, swift_bridge_path);
    let end = "\n})"@;
    reveal_strlit("\n})");
    lemma_call_statement(function, types, swift_bridge_path);
    let before = body.take(body.len() - end.len() - statement.len());
    assert(body =~= before + statement + end);
    text::lemma_occurs_between(generate::rust_call(function), before, statement, end);
}

proof fn lemma_callback_is_made<T: BridgeableType>(
    function: &ParsedExternFn<T>,
    return_ty: &BridgedType<T>,
    types: &TypeDeclarations,
    swift_bridge_path: &Path,
)
    ensures
        text::occurs(
            "let wrapper = "@ + generate::callback_wrapper_ty(function) + "(cb: callback)"@,
            generate::async_body(function, return_ty, types, swift_bridge_path),
        ),
{
    let class = generate::callback_wrapper_ty(function);
    let body = generate::async_body(function, return_ty, types, swift_bridge_path);
    let in_closure = ">) in\n    let callback = { rustFnRetVal in\n        continuation.resume(with: rustFnRetVal)\n    }\n\n    let wrapper = "@;
    let behind_class = "(cb: callback)\n    let wrapperPtr = Unmanaged.passRetained(wrapper).toOpaque()\n\n    "@;
    reveal_strlit(">) in\n    let callback = { rustFnRetVal in\n        continuation.resume(with: rustFnRetVal)\n    }\n\n    let wrapper = ");
    reveal_strlit("(cb: callback)\n    let wrapperPtr = Unmanaged.passRetained(wrapper).toOpaque()\n\n    ");
    reveal_strlit("let wrapper = ");
    reveal_strlit("(cb: callback)");
    let start = in_closure.take(in_closure.len() - "let wrapper = "@.len());
    let rest = behind_class.skip("(cb: callback)"@.len() as int);
    assert(in_closure =~= start + "let wrapper = "@);
    assert(behind_class =~= "(cb: callback)"@ + rest);
    let tail = generate::call_statement(function, types, swift_bridge_path) + "\n})"@;
    let head = body.take(
        body.len() - tail.len() - behind_class.len() - class.len() - in_closure.len(),
    );
    assert(body =~= head + in_closure + class + behind_class + tail);
    assert(body =~= (head + start) + ("let wrapper = "@ + class + "(cb: callback)"@) + (rest + tail));
}

/// The Swift function for an `async` function calls the Rust function, where the
/// call stands in one line.
pub proof fn law_async_function_calls_rust<T: BridgeableType>(
    function: &ParsedExternFn<T>,
    types: &TypeDeclarations,
    swift_bridge_path: &Path,
)
    requires
        function.is_callable_from_swift(types),
        function.is_async,
        text::is_free_of(generate::rust_call(function), '\n'),
        text::is_free_of(generate::rust_call(function), '\r'),
    ensures
        text::occurs(
            generate::rust_call(function),
            generate::spec_gen_func_swift_calls_rust(function, types, swift_bridge_path),
        ),
{
    let part = generate::rust_call(function);
    let return_ty = &function.built_in_return->0;
    let body = generate::async_body(function, return_ty, types, swift_bridge_path);
    let indentation = generate::indentation(function);
    let indented = generate::indented(body, indentation);
    lemma_async_body(function, return_ty, types, swift_bridge_path);

    assert(part.len() > 0) by {
        reveal_strlit("$");
    }
    lemma_indented_keeps_part(part, body, indentation);

    let before = generate::head(function) + " async"@ + generate::return_type_text(function)
        + " {\n"@;
    text::lemma_occurs_between(part, before, indented, "\n"@);
    text::lemma_occurs_between(part, Seq::empty(), before + indented + "\n"@, indentation);
    text::lemma_occurs_between(
        part,
        Seq::empty(),
        before + indented + "\n"@ + indentation,
        "}\n"@,
    );
    text::lemma_occurs_between(
        part,
        Seq::empty(),
        before + indented + "\n"@ + indentation + "}\n"@,
        generate::callback_wrapper(function, return_ty, types, swift_bridge_path),
    );
}

/// The class for the callback, which the Swift function for an `async` function makes
/// an object of, is defined behind that function. The name of the class stands in one
/// line.
pub proof fn law_async_function_defines_callback<T: BridgeableType>(
    function: &ParsedExternFn<T>,
    types: &TypeDeclarations,
    swift_bridge_path: &Path,
)
    requires
        function.is_callable_from_swift(types),
        function.is_async,
        text::is_free_of(generate::callback_wrapper_ty(function), '\n'),
        text::is_free_of(generate::callback_wrapper_ty(function), '\r'),
    ensures
        ({
            let class = generate::callback_wrapper_ty(function);
            let definition = generate::spec_gen_func_swift_calls_rust(
                function,
                types,
                swift_bridge_path,
            );
            &&& text::occurs("let wrapper = "@ + class + "(cb: callback)"@, definition)
            &&& text::occurs("class "@ + class + " {\n"@, definition)
        }),
{
    broadcast use text::lemma_occurs_before;

    let class = generate::callback_wrapper_ty(function);
    let return_ty = &function.built_in_return->0;
    let body = generate::async_body(function, return_ty, types, swift_bridge_path);
    let indentation = generate::indentation(function);
    let made = "let wrapper = "@ + class + "(cb: callback)"@;
    lemma_async_body(function, return_ty, types, swift_bridge_path);
    lemma_callback_is_made(function, return_ty, types, swift_bridge_path);
    assert(made.len() > 0 && text::is_free_of(made, '\n') && text::is_free_of(made, '\r')) by {
        reveal_strlit("let wrapper = ");
        reveal_strlit("(cb: callback)");
    }
    lemma_indented_keeps_part(made, body, indentation);
    let before = generate::head(function) + " async"@ + generate::return_type_text(function)
        + " {\n"@;
    let indented = generate::indented(body, indentation);
    text::lemma_occurs_between(made, before, indented, "\n"@);

    let wrapper = generate::callback_wrapper(function, return_ty, types, swift_bridge_path);
    text::lemma_occurs_three(indentation, "class "@, class, " {\n"@);
    text::lemma_occurs_between(
        "class "@ + class + " {\n"@,
        before + indented + "\n"@ + indentation + "}\n"@,
        wrapper,
        Seq::empty(),
    );
}

} // verus!

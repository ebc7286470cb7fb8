//! What holds of results across Rust, C and Swift.
use syn::Path;
use vstd::prelude::*;

use crate::bridgeable_result;
use crate::bridgeable_result::BuiltInResult;
use crate::bridgeable_result_rust;
use crate::bridged_type::{Aspect, BridgeableType, NamedType, TypePosition};
use crate::declarations::{HostLang, TypeDeclarations};
use crate::std_lib_type;
use crate::std_lib_type::StdLibType;
use crate::text;
use crate::tokens;
use crate::tokens::{Bracket, Gap, Token};
use crate::SWIFT_BRIDGE_PREFIX;

verus! {

/// Whether a type is passed via a pointer, and whether it has one value only, is the
/// same for both.
pub open spec fn is_passed_alike<A: BridgeableType + ?Sized, B: BridgeableType + ?Sized>(
    a: &A,
    b: &B,
) -> bool {
    &&& a.spec_is_passed_via_pointer() == b.spec_is_passed_via_pointer()
    &&& a.spec_only_encoding() is Some == b.spec_only_encoding() is Some
}

/// Which of its two types is which does not matter for whether a result needs a
/// tagged union of its own, and neither does anything else about them but how they
/// are passed.
pub proof fn law_custom_is_symmetric<
    O: BridgeableType + ?Sized,
    E: BridgeableType + ?Sized,
    P: BridgeableType + ?Sized,
    F: BridgeableType + ?Sized,
>(
    result: &BuiltInResult<O, E>,
    swapped: &BuiltInResult<P, F>,
)
    requires
        is_passed_alike(&*result.ok_ty, &*swapped.err_ty),
        is_passed_alike(&*result.err_ty, &*swapped.ok_ty),
    ensures
        result.spec_is_custom_result_type() == swapped.spec_is_custom_result_type(),
{
}

/// A result has a definition of its own in Rust if and only if it has one in C, and
/// that is so if and only if it crosses the bridge in a tagged union.
pub proof fn law_defined_iff_custom<O: BridgeableType + ?Sized, E: BridgeableType + ?Sized>(
    result: &BuiltInResult<O, E>,
    swift_bridge_path: &Path,
    types: &TypeDeclarations,
)
    ensures
        result.spec_generate_custom_c_ffi_types(types) is Some
            <==> result.spec_is_custom_result_type(),
        result.spec_generate_custom_rust_ffi_types(swift_bridge_path, types) is Some
            <==> result.spec_is_custom_result_type(),
{
}

/// Rust, C and Swift agree on how a result crosses the bridge: as a tagged union,
/// as the error alone, or as a flag and a pointer.
pub proof fn law_representations_agree<O: BridgeableType + ?Sized, E: BridgeableType + ?Sized>(
    result: &BuiltInResult<O, E>,
    swift_bridge_path: &Path,
    types: &TypeDeclarations,
)
    ensures
        ({
            let rust = result.spec_to_ffi_compatible_rust_type(swift_bridge_path, types);
            let c = result.spec_to_c(types);
            let swift = result.spec_to_swift_type(
                TypePosition::SwiftCallsRustAsyncOnCompleteReturnTy,
                types,
                swift_bridge_path,
            );
            if result.spec_is_custom_result_type() {
                &&& rust == tokens::ident(tokens::itself(), result.spec_custom_c_struct_name(types))
                &&& swift == SWIFT_BRIDGE_PREFIX@ + "$"@ + result.spec_custom_c_struct_name(types)
                &&& c == "struct "@ + swift
            } else if result.ok_ty.spec_can_be_encoded_with_zero_bytes() {
                &&& rust == result.err_ty.spec_to_ffi_compatible_rust_type(swift_bridge_path, types)
                &&& c == result.err_ty.spec_to_c_type(types)
                &&& swift == "UnsafeMutableRawPointer?"@
            } else {
                &&& rust == bridgeable_result_rust::flag_and_pointer_type(
                    tokens::itself(),
                    tokens::path_tokens(*swift_bridge_path),
                )
                &&& c == "struct "@ + swift
                &&& swift == "__private__ResultPtrAndPtr"@
            }
        }),
{
    reveal_strlit("struct ");
    reveal_strlit("__private__ResultPtrAndPtr");
    reveal_strlit("struct __private__ResultPtrAndPtr");
    assert("struct __private__ResultPtrAndPtr"@ =~= "struct "@ + "__private__ResultPtrAndPtr"@);
}

/// The two tags of a tagged union differ.
pub proof fn law_tags_differ<O: BridgeableType + ?Sized, E: BridgeableType + ?Sized>(
    result: &BuiltInResult<O, E>,
    types: &TypeDeclarations,
)
    ensures
        result.spec_c_ok_tag_name(types) != result.spec_c_err_tag_name(types),
{
    reveal_strlit("$ResultOk");
    reveal_strlit("$ResultErr");
    assert(result.spec_c_ok_tag_name(types).last() == 'k');
    assert(result.spec_c_err_tag_name(types).last() == 'r');
}

/// The definition in C declares the tags that Swift tests, in each of the three
/// pieces of Swift source that take a tagged union apart.
pub proof fn law_tested_tags_are_declared<
    O: BridgeableType + ?Sized,
    E: BridgeableType + ?Sized,
>(
    result: &BuiltInResult<O, E>,
    expression: Seq<char>,
    lang: HostLang,
    callback_pos: TypePosition,
    types: &TypeDeclarations,
    swift_bridge_path: &Path,
)
    requires
        result.spec_is_custom_result_type(),
    ensures
        ({
            let ok_tag = result.spec_c_ok_tag_name(types);
            let err_tag = result.spec_c_err_tag_name(types);
            let in_return = result.spec_convert_ffi_value_to_swift_value(
                expression,
                TypePosition::FnReturn(lang),
                types,
                swift_bridge_path,
            );
            let in_init = result.spec_convert_ffi_value_to_swift_value(
                expression,
                TypePosition::ThrowingInit(HostLang::Rust),
                types,
                swift_bridge_path,
            );
            let in_callback = result.spec_generate_swift_calls_async_rust_callback(
                expression,
                callback_pos,
                types,
                swift_bridge_path,
            );
            let definition = result.spec_generate_custom_c_ffi_types(types)->0.text;
            &&& text::occurs(" {"@ + ok_tag + ", "@, definition)
            &&& text::occurs(", "@ + err_tag + "} "@, definition)
            &&& text::occurs("; switch val.tag { case "@ + ok_tag + ": return"@, in_return)
            &&& text::occurs(" case "@ + err_tag + ": throw "@, in_return)
            &&& text::occurs(
                "; if val.tag == "@ + ok_tag
                    + " { self.init(ptr: val.payload.ok) } else { throw "@,
                in_init,
            )
            &&& text::occurs(".tag { case "@ + ok_tag + ": wrapper.cb(.success("@, in_callback)
            &&& text::occurs(")) case "@ + err_tag + ": wrapper.cb(.failure("@, in_callback)
        }),
{
    broadcast use text::lemma_occurs_before;

    let ok_tag = result.spec_c_ok_tag_name(types);
    let err_tag = result.spec_c_err_tag_name(types);
    let zero_bytes = result.ok_ty.spec_can_be_encoded_with_zero_bytes();

    let before_tags = "typedef enum "@ + (result.c_name(types) + "$Tag"@);
    text::lemma_occurs_three(before_tags, " {"@, ok_tag, ", "@);
    text::lemma_occurs_three(before_tags + " {"@ + ok_tag, ", "@, err_tag, "} "@);

    let ok = if zero_bytes {
        ""@
    } else {
        " "@ + result.ok_ty.spec_convert_ffi_expression_to_swift_type(
            "val.payload.ok"@,
            TypePosition::FnReturn(lang),
            types,
            swift_bridge_path,
        )
    };
    let before_switch = "try { let val = "@ + expression;
    text::lemma_occurs_three(before_switch, "; switch val.tag { case "@, ok_tag, ": return"@);
    text::lemma_occurs_three(
        before_switch + "; switch val.tag { case "@ + ok_tag + ": return"@ + ok,
        " case "@,
        err_tag,
        ": throw "@,
    );
    text::lemma_occurs_three(
        "let val = "@ + expression,
        "; if val.tag == "@,
        ok_tag,
        " { self.init(ptr: val.payload.ok) } else { throw "@,
    );

    let ok = if zero_bytes {
        "()"@
    } else {
        result.ok_ty.spec_convert_ffi_expression_to_swift_type(
            expression + ".payload.ok"@,
            callback_pos,
            types,
            swift_bridge_path,
        )
    };
    let before_callback = "switch "@ + expression;
    text::lemma_occurs_three(before_callback, ".tag { case "@, ok_tag, ": wrapper.cb(.success("@);
    text::lemma_occurs_three(
        before_callback + ".tag { case "@ + ok_tag + ": wrapper.cb(.success("@ + ok,
        ")) case "@,
        err_tag,
        ": wrapper.cb(.failure("@,
    );
}

/// The type that a tagged union has in C is defined there, in the last of the three
/// definitions.
pub proof fn law_c_type_is_defined<O: BridgeableType + ?Sized, E: BridgeableType + ?Sized>(
    result: &BuiltInResult<O, E>,
    types: &TypeDeclarations,
)
    requires
        result.spec_is_custom_result_type(),
    ensures
        result.spec_to_c(types) == "struct "@ + result.c_name(types),
        text::occurs(
            " err;};\ntypedef struct "@ + result.c_name(types) + "{"@,
            result.spec_generate_custom_c_ffi_types(types)->0.text,
        ),
{
    broadcast use text::lemma_occurs_before;

    let name = result.c_name(types);
    let tag = name + "$Tag"@;
    let ok_field = if result.ok_ty.spec_can_be_encoded_with_zero_bytes() {
        ""@
    } else {
        result.ok_ty.spec_to_c_type(types) + " ok; "@
    };
    text::lemma_occurs_three(
        "typedef enum "@ + tag + " {"@ + result.spec_c_ok_tag_name(types) + ", "@
            + result.spec_c_err_tag_name(types) + "} "@ + tag + ";\nunion "@ + (name + "$Fields"@)
            + " {"@ + ok_field + result.err_ty.spec_to_c_type(types),
        " err;};\ntypedef struct "@,
        name,
        "{"@,
    );
}

/// `#[repr(C)] pub enum $name`
pub open spec fn union_start(name: Seq<Token>) -> Seq<Token> {
    bridgeable_result_rust::attribute(tokens::itself(), "repr"@, "C"@) + tokens::ident(
        tokens::itself(),
        "pub"@,
    ) + tokens::ident(tokens::itself(), "enum"@) + name
}

/// The first Rust definition of a tagged union is that of the type in which the
/// result crosses the bridge. All the definitions that its two types need follow,
/// those for `Ok` first.
pub proof fn law_rust_type_is_defined<O: BridgeableType + ?Sized, E: BridgeableType + ?Sized>(
    result: &BuiltInResult<O, E>,
    swift_bridge_path: &Path,
    types: &TypeDeclarations,
)
    requires
        result.spec_is_custom_result_type(),
    ensures
        ({
            let all = result.spec_generate_custom_rust_ffi_types(swift_bridge_path, types)->0;
            let ok = result.ok_ty.spec_generate_custom_rust_ffi_types(swift_bridge_path, types);
            let err = result.err_ty.spec_generate_custom_rust_ffi_types(swift_bridge_path, types);
            let ok_len: int = match ok {
                Some(definitions) => definitions.len() as int,
                None => 0,
            };
            let name = result.spec_to_ffi_compatible_rust_type(swift_bridge_path, types);
            let start = union_start(name);
            &&& all.len() > 0
            &&& start.is_prefix_of(all[0])
            &&& ok matches Some(definitions) ==> all.subrange(1, 1 + ok_len) == definitions
            &&& err matches Some(definitions) ==> all.skip(1 + ok_len) == definitions
        }),
{
    let all = result.spec_generate_custom_rust_ffi_types(swift_bridge_path, types)->0;
    let name = result.spec_to_ffi_compatible_rust_type(swift_bridge_path, types);
    let start = union_start(name);
    assert(all[0].take(start.len() as int) =~= start);
}

/// Where a function returns a result, Swift tries the call: it is the value of `Ok`,
/// or it throws the error.
pub proof fn law_returned_result_is_tried<
    O: BridgeableType + ?Sized,
    E: BridgeableType + ?Sized,
>(
    result: &BuiltInResult<O, E>,
    call: Seq<char>,
    lang: HostLang,
    types: &TypeDeclarations,
    swift_bridge_path: &Path,
)
    requires
        result.has(Aspect::FfiToSwift(TypePosition::FnReturn(lang)), types),
    ensures
        ("try { let val = "@ + call).is_prefix_of(
            result.spec_convert_ffi_value_to_swift_value(
                call,
                TypePosition::FnReturn(lang),
                types,
                swift_bridge_path,
            ),
        ),
{
    let start = "try { let val = "@ + call;
    let all = result.spec_convert_ffi_value_to_swift_value(
        call,
        TypePosition::FnReturn(lang),
        types,
        swift_bridge_path,
    );
    assert(all.take(start.len() as int) =~= start);
}

/// The text `Result < $ok , $err >`.
pub open spec fn result_text(ok: Seq<char>, err: Seq<char>) -> Seq<char> {
    "Result < "@ + ok + " , "@ + err + " >"@
}

/// Whether the comma between `A` and `B` in `A , B` is where the text is split.
///
/// Either the brackets of `B` balance and its commas stand inside of brackets,
/// whatever `A` is. Or `B` holds no comma at all, and none of the commas in `A` has
/// balanced brackets behind it.
pub open spec fn is_split_between(ok: Seq<char>, err: Seq<char>) -> bool {
    ||| {
        &&& text::balances_from(err, 0)
        &&& forall|i: int| !#[trigger] text::stands_outside(err, ',', i)
    }
    ||| {
        &&& !err.contains(',')
        &&& forall|i: int|
            i < ok.len() ==> !#[trigger] text::stands_outside(ok + " , "@ + err, ',', i)
    }
}

/// `Result < A , B >` is taken apart into `A` and `B`, which have no white space
/// around them.
pub proof fn law_ok_and_err_names(ok: Seq<char>, err: Seq<char>)
    requires
        text::is_trimmed(ok),
        text::is_trimmed(err),
        is_split_between(ok, err),
    ensures
        bridgeable_result::ok_and_err_names(result_text(ok, err)) == Some((ok, err)),
{
    let start = "Result < "@;
    let end = " >"@;
    reveal_strlit("Result < ");
    reveal_strlit(" >");
    reveal_strlit(" , ");
    let whole = result_text(ok, err);
    let rest = ok + " , "@ + err + end;
    let inner = ok + " , "@ + err;
    assert(whole.take(start.len() as int) =~= start);
    assert(whole.skip(start.len() as int) =~= rest);
    assert(rest.skip(rest.len() - end.len()) =~= end);
    assert(rest.take(rest.len() - end.len()) =~= inner);

    let behind = seq![' '] + err;
    assert(inner =~= ok.push(' ').push(',') + behind);
    if text::balances_from(err, 0) && forall|i: int| !#[trigger] text::stands_outside(err, ',', i) {
        text::lemma_pending_behind(seq![' '], err, 0);
        text::lemma_pending_over_plain(behind, 0, 1);
        assert forall|i: int| !#[trigger] text::stands_outside(behind, ',', i) by {
            if text::stands_outside(behind, ',', i) {
                text::lemma_pending_behind(seq![' '], err, i);
                assert(text::stands_outside(err, ',', i - 1));
            }
        }
        text::law_split_outside(ok.push(' '), ',', behind);
    } else {
        assert(!behind.contains(',')) by {
            if behind.contains(',') {
                let i = choose|i: int| 0 <= i < behind.len() && behind[i] == ',';
                assert(err[i - 1] == ',');
            }
        }
        text::law_split_at_last(ok.push(' '), ',', behind);
    }
    text::law_trim_space(ok);
    text::law_trim_space(err);
}

/// `Result < A , B >` is taken apart into `A` and `B`, whatever stands in `A`, where `B`
/// has neither commas nor brackets.
pub proof fn law_plain_error_name(ok: Seq<char>, err: Seq<char>)
    requires
        text::is_trimmed(ok),
        text::is_trimmed(err),
        forall|k: int|
            0 <= k < err.len() ==> {
                let d = #[trigger] err[k];
                d != ',' && d != '<' && d != '>' && d != '(' && d != ')' && d != '[' && d != ']'
                    && d != '{' && d != '}'
            },
    ensures
        bridgeable_result::ok_and_err_names("Result < "@ + ok + " , "@ + err + " >"@) == Some(
            (ok, err),
        ),
{
    text::law_plain_text_is_balanced(err, ',', 0);
    assert forall|i: int| !#[trigger] text::stands_outside(err, ',', i) by {
        text::law_plain_text_is_balanced(err, ',', i);
    }
    law_ok_and_err_names(ok, err);
}

proof fn lemma_no_end(s: Seq<char>)
    requires
        s.len() > 0,
        s.last() != '>',
    ensures
        !" >"@.is_suffix_of(s),
{
    reveal_strlit(" >");
    if " >"@.is_suffix_of(s) {
        assert(s.subrange(s.len() - 2, s.len() as int)[1] == s.last());
    }
}

/// The white space around the comma does not matter: what is left of it is in neither of
/// the two names. Nor does it matter whether the text starts with `Result < ` and ends
/// with ` >`, where the second name has neither commas nor brackets.
#[verifier::spinoff_prover]
pub proof fn law_names_are_trimmed(ok: Seq<char>, err: Seq<char>)
    requires
        forall|k: int|
            0 <= k < err.len() ==> {
                let d = #[trigger] err[k];
                d != ',' && d != '<' && d != '>' && d != '(' && d != ')' && d != '[' && d != ']'
                    && d != '{' && d != '}'
            },
    ensures
        ({
            let inner = ok + ","@ + err;
            let names = Some((text::trimmed(ok), text::trimmed(err)));
            &&& bridgeable_result::ok_and_err_names("Result < "@ + inner + " >"@) == names
            &&& !"Result < "@.is_prefix_of(inner) ==> bridgeable_result::ok_and_err_names(inner)
                == names
        }),
{
    reveal_strlit("Result < ");
    reveal_strlit(" >");
    reveal_strlit(",");
    let inner = ok + ","@ + err;
    text::law_plain_text_is_balanced(err, ',', 0);
    assert forall|i: int| !#[trigger] text::stands_outside(err, ',', i) by {
        text::law_plain_text_is_balanced(err, ',', i);
    }
    text::law_split_outside(ok, ',', err);
    assert(ok.push(',') + err =~= inner);
    text::law_stripped_text(inner + " >"@, "Result < "@);
    text::law_stripped_text(inner, " >"@);
    assert("Result < "@ + inner + " >"@ =~= "Result < "@ + (inner + " >"@));
    assert(inner.last() != '>') by {
        if err.len() > 0 {
            assert(inner.last() == err[err.len() - 1]);
        }
    }
    lemma_no_end(inner);
    text::law_stripped_text(inner, "Result < "@);
}

/// A text without a comma is not that of a result.
pub proof fn law_no_names_without_comma(string: Seq<char>)
    requires
        text::is_free_of(string, ','),
    ensures
        bridgeable_result::ok_and_err_names(string) is None,
{
    let rest = text::without_prefix(string, "Result < "@);
    let inner = text::without_suffix(rest, " >"@);
    assert(text::is_free_of(rest, ','));
    assert(text::is_free_of(inner, ','));
    text::law_no_delimiter(inner, ',');
}

/// `Result < A , (B) >` is taken apart into `A` and `(B)`, whatever stands in `A`, where
/// `B` is balanced, and whatever commas are in it. The brackets can be of any kind, and a
/// name can stand before them.
pub proof fn law_bracketed_error_name(
    ok: Seq<char>,
    name: Seq<char>,
    open: char,
    inner: Seq<char>,
    closer: char,
)
    requires
        text::is_trimmed(ok),
        name.len() > 0 ==> !text::is_white_space(name[0]) && name.last() != '-',
        forall|k: int|
            0 <= k < name.len() ==> {
                let d = #[trigger] name[k];
                d != ',' && d != '<' && d != '>' && d != '(' && d != ')' && d != '[' && d != ']'
                    && d != '{' && d != '}'
            },
        text::is_balanced(inner),
        inner.len() > 0 ==> inner.last() != '-',
        ({
            ||| open == '<' && closer == '>'
            ||| open == '(' && closer == ')'
            ||| open == '[' && closer == ']'
            ||| open == '{' && closer == '}'
        }),
    ensures
        ({
            let err = name + (seq![open] + inner + seq![closer]);
            bridgeable_result::ok_and_err_names("Result < "@ + ok + " , "@ + err + " >"@) == Some(
                (ok, err),
            )
        }),
{
    let group = seq![open] + inner + seq![closer];
    let err = name + group;
    text::law_plain_text_is_balanced(name, ',', 0);
    text::law_text_in_brackets(open, inner, closer, ',', 0);
    text::law_balanced_texts_in_a_row(name, group, ',', 0);
    assert(err.last() == closer);
    assert(group[0] == open);
    assert forall|i: int| !#[trigger] text::stands_outside(err, ',', i) by {
        text::law_plain_text_is_balanced(name, ',', i);
        text::law_text_in_brackets(open, inner, closer, ',', i - name.len());
        text::law_balanced_texts_in_a_row(name, group, ',', i);
    }
    law_ok_and_err_names(ok, err);
}

/// The text of a result can stand as either type of another result.
pub proof fn law_result_text_nests(ok: Seq<char>, err: Seq<char>)
    requires
        text::is_balanced(ok),
        text::is_balanced(err),
    ensures
        text::is_trimmed(result_text(ok, err)),
        text::is_balanced(result_text(ok, err)),
        forall|i: int| !#[trigger] text::stands_outside(result_text(ok, err), ',', i),
{
    reveal_strlit("Result < ");
    reveal_strlit(" >");
    reveal_strlit(" , ");
    let s = result_text(ok, err);
    lemma_pending_in_result(ok, err);
    assert forall|i: int| 0 <= i < s.len() && #[trigger] s[i] == '<' implies !text::balances_from(
        s,
        i + 1,
    ) by {
        assert(i >= 7);
    }
}

/// Behind its start, everything in the text of a result stands inside of brackets.
proof fn lemma_pending_in_result(ok: Seq<char>, err: Seq<char>)
    requires
        text::is_balanced(ok),
        text::is_balanced(err),
    ensures
        text::balances_from(result_text(ok, err), 0),
        forall|i: int|
            8 <= i < result_text(ok, err).len() ==> !#[trigger] text::balances_from(
                result_text(ok, err),
                i,
            ),
{
    reveal_strlit("Result < ");
    reveal_strlit(" >");
    reveal_strlit(" , ");
    let s = result_text(ok, err);
    let n = s.len() as int;
    let at_ok = 9int;
    let at_comma = at_ok + ok.len();
    let at_err = at_comma + 3;
    let at_end = at_err + err.len();
    let outer = Some(seq!['>']);

    assert(n == at_end + 2);
    assert(s[n - 1] == '>' && s[n - 2] == ' ');
    assert(text::pending(s, n) == Some(Seq::<char>::empty()));
    assert(Seq::<char>::empty().push('>') =~= seq!['>']);
    assert(text::pending(s, n - 1) == outer);
    text::lemma_pending_over_plain(s, at_end, n - 1);
    assert(s.subrange(at_err, at_end) =~= err);
    assert(s[at_err - 1] == ' ');
    text::lemma_pending_over_balanced(s, at_err, err, '>', 0);
    assert(seq!['>'] + Seq::<char>::empty() =~= seq!['>']);
    text::lemma_pending_over_plain(s, at_comma, at_err);
    assert(s.subrange(at_ok, at_comma) =~= ok);
    assert(s[at_ok - 1] == ' ');
    text::lemma_pending_over_balanced(s, at_ok, ok, '>', 0);
    text::lemma_pending_over_plain(s, 8, at_ok);
    assert(seq!['>'].drop_last() =~= Seq::<char>::empty());
    assert(s[7] == '<');
    assert(text::pending(s, 7) == Some(Seq::<char>::empty()));
    text::lemma_pending_over_plain(s, 0, 7);

    assert forall|i: int| 8 <= i < n implies !#[trigger] text::balances_from(s, i) by {
        if i < at_ok {
            text::lemma_pending_over_plain(s, i, at_ok);
        } else if i <= at_comma {
            text::lemma_pending_over_balanced(s, at_ok, ok, '>', i - at_ok);
        } else if i <= at_err {
            text::lemma_pending_over_plain(s, i, at_err);
        } else if i <= at_end {
            text::lemma_pending_over_balanced(s, at_err, err, '>', i - at_err);
        } else {
            text::lemma_pending_over_plain(s, i, n - 1);
        }
    }
}

/// `Result < A , B >` becomes the result of the types that `A` and `B` name, and is
/// none where one of the two is no name of a type.
pub proof fn law_from_str_tokens<T: NamedType>(
    ok: Seq<char>,
    err: Seq<char>,
    types: &TypeDeclarations,
)
    requires
        text::is_trimmed(ok),
        text::is_trimmed(err),
        is_split_between(ok, err),
    ensures
        BuiltInResult::<T, T>::spec_from_str_tokens(result_text(ok, err), types) == (match (
            T::spec_new_with_str(ok, types),
            T::spec_new_with_str(err, types),
        ) {
            (Some(ok_ty), Some(err_ty)) => Some((ok_ty, err_ty)),
            _ => None,
        }),
{
    law_ok_and_err_names(ok, err);
}

/// A token as text.
pub open spec fn token_text(token: Token) -> Seq<char> {
    match token {
        Token::Ident(text) => text,
        Token::Literal(text) => text,
        Token::Punct(c, _) => seq![c],
        Token::Open(Bracket::Round) => seq!['('],
        Token::Close(Bracket::Round) => seq![')'],
        Token::Open(Bracket::Curly) => seq!['{'],
        Token::Close(Bracket::Curly) => seq!['}'],
        Token::Open(Bracket::Square) => seq!['['],
        Token::Close(Bracket::Square) => seq![']'],
        Token::Open(Bracket::Invisible) => Seq::empty(),
        Token::Close(Bracket::Invisible) => Seq::empty(),
    }
}

/// Whether nothing may stand between `token` and the one behind it.
pub open spec fn holds_next(token: Token) -> bool {
    match token {
        Token::Open(bracket) => bracket != Bracket::Curly,
        Token::Punct(_, gap) => gap == Gap::Joint,
        _ => false,
    }
}

/// Whether nothing may stand between `token` and the one before it.
pub open spec fn holds_previous(token: Token) -> bool {
    match token {
        Token::Close(bracket) => bracket != Bracket::Curly,
        _ => false,
    }
}

/// What stands between two tokens in a text: a space, but nothing inside of an
/// operator, behind an opening bracket or before a closing one, unless it is curly.
pub open spec fn between(token: Token, next: Token) -> Seq<char> {
    if holds_next(token) || holds_previous(next) {
        Seq::empty()
    } else {
        seq![' ']
    }
}

/// Tokens as a text, in the form in which the names of types are looked up.
pub open spec fn spaced(sequence: Seq<Token>) -> Seq<char>
    decreases sequence.len(),
{
    if sequence.len() == 0 {
        Seq::empty()
    } else if sequence.len() == 1 {
        token_text(sequence[0])
    } else {
        spaced(sequence.drop_last()) + between(
            sequence[sequence.len() - 2],
            sequence.last(),
        ) + token_text(sequence.last())
    }
}

/// The sequence can stand between two others: it neither starts with something that
/// holds on to the previous token, nor ends in something that holds on to the next
/// one.
pub open spec fn stands_alone(sequence: Seq<Token>) -> bool {
    sequence.len() > 0 && !holds_previous(sequence[0]) && !holds_next(sequence.last())
}

proof fn lemma_spaced_sum(a: Seq<Token>, b: Seq<Token>)
    requires
        a.len() > 0,
        b.len() > 0,
    ensures
        spaced(a + b) == spaced(a) + between(a.last(), b[0]) + spaced(b),
    decreases b.len(),
{
    assert((a + b).drop_last() =~= a + b.drop_last());
    if b.len() == 1 {
        assert(a + b.drop_last() =~= a);
    } else {
        lemma_spaced_sum(a, b.drop_last());
        assert(spaced(a + b) =~= spaced(a) + between(a.last(), b[0]) + spaced(b));
    }
}

/// The Rust source of a result, written as text, is `Result < A , B >` for the texts
/// of its two types.
pub proof fn law_rust_type_is_spaced<O: BridgeableType + ?Sized, E: BridgeableType + ?Sized>(
    result: &BuiltInResult<O, E>,
    types: &TypeDeclarations,
)
    requires
        stands_alone(result.ok_ty.spec_to_rust_type_path(types)),
        stands_alone(result.err_ty.spec_to_rust_type_path(types)),
    ensures
        spaced(result.spec_to_rust_type_path(types)) == result_text(
            spaced(result.ok_ty.spec_to_rust_type_path(types)),
            spaced(result.err_ty.spec_to_rust_type_path(types)),
        ),
        stands_alone(result.spec_to_rust_type_path(types)),
{
    reveal_strlit("Result");
    reveal_strlit("Result < ");
    reveal_strlit(" , ");
    reveal_strlit(" >");
    let ok = result.ok_ty.spec_to_rust_type_path(types);
    let err = result.err_ty.spec_to_rust_type_path(types);
    let word = tokens::ident(tokens::itself(), "Result"@);
    let less = tokens::punct(tokens::itself(), '<');
    let comma = tokens::punct(tokens::itself(), ',');
    let greater = tokens::punct(tokens::itself(), '>');
    lemma_spaced_sum(word, less);
    lemma_spaced_sum(word + less, ok);
    lemma_spaced_sum(word + less + ok, comma);
    lemma_spaced_sum(word + less + ok + comma, err);
    lemma_spaced_sum(word + less + ok + comma + err, greater);
    assert(spaced(word + less) =~= "Result <"@) by {
        reveal_strlit("Result <");
    }
    reveal_strlit("Result <");
    assert(spaced(result.spec_to_rust_type_path(types)) =~= result_text(spaced(ok), spaced(err)));
}

proof fn lemma_std_name(ty: StdLibType)
    ensures
        text::is_trimmed(ty.spec_rust_name()),
        text::is_balanced(ty.spec_rust_name()),
        forall|i: int| !#[trigger] text::stands_outside(ty.spec_rust_name(), ',', i),
        stands_alone(ty.rust_tokens()),
        spaced(ty.rust_tokens()) == ty.spec_rust_name(),
{
    reveal_strlit("()");
    reveal_strlit("u8");
    reveal_strlit("i8");
    reveal_strlit("u16");
    reveal_strlit("i16");
    reveal_strlit("u32");
    reveal_strlit("i32");
    reveal_strlit("u64");
    reveal_strlit("i64");
    reveal_strlit("bool");
    let name = ty.spec_rust_name();
    if ty == StdLibType::Null {
        let all = ty.rust_tokens();
        assert(text::pending(name, 2) == Some(Seq::<char>::empty()));
        assert(text::pending(name, 1) == Some(seq![')']));
        assert(seq![')'].drop_last() =~= Seq::<char>::empty());
        assert(all.drop_last() =~= seq![Token::Open(Bracket::Round)]);
        assert(all.last() == Token::Close(Bracket::Round));
        assert(spaced(all.drop_last()) == seq!['(']);
        assert(spaced(all) =~= name);
    } else {
        text::lemma_pending_over_plain(name, 0, name.len() as int);
    }
}

/// Writing undoes parsing: the result that `Result < A , B >` becomes, written as
/// text, is that text again, with `A` for `Ok` and `B` for `Err`.
pub proof fn law_parsed_result_is_written_back(
    ok: StdLibType,
    err: StdLibType,
    result: &BuiltInResult<StdLibType, StdLibType>,
    types: &TypeDeclarations,
)
    requires
        BuiltInResult::<StdLibType, StdLibType>::spec_from_str_tokens(
            result_text(ok.spec_rust_name(), err.spec_rust_name()),
            types,
        ) == Some((result.ok_ty@, result.err_ty@)),
    ensures
        *result.ok_ty == ok,
        *result.err_ty == err,
        spaced(result.spec_to_rust_type_path(types)) == result_text(
            ok.spec_rust_name(),
            err.spec_rust_name(),
        ),
{
    law_std_lib_result_is_found(ok, err, types);
    lemma_std_name(ok);
    lemma_std_name(err);
    law_rust_type_is_spaced(result, types);
}

/// `Result < A , B >` with the names of two types of the standard library becomes the
/// result of these types.
pub proof fn law_std_lib_result_is_found(
    ok: StdLibType,
    err: StdLibType,
    types: &TypeDeclarations,
)
    ensures
        BuiltInResult::<StdLibType, StdLibType>::spec_from_str_tokens(
            result_text(ok.spec_rust_name(), err.spec_rust_name()),
            types,
        ) == Some((ok, err)),
{
    lemma_std_name(ok);
    lemma_std_name(err);
    std_lib_type::law_std_lib_type_is_found_by_name(ok, types);
    std_lib_type::law_std_lib_type_is_found_by_name(err, types);
    law_from_str_tokens::<StdLibType>(
        ok.spec_rust_name(),
        err.spec_rust_name(),
        types,
    );
}

/// The Swift source that takes a result apart holds the expression that the result
/// comes from.
pub proof fn law_conversion_keeps_expression<
    O: BridgeableType + ?Sized,
    E: BridgeableType + ?Sized,
>(
    result: &BuiltInResult<O, E>,
    expression: Seq<char>,
    type_pos: TypePosition,
    types: &TypeDeclarations,
    swift_bridge_path: &Path,
)
    requires
        result.has(Aspect::FfiToSwift(type_pos), types),
    ensures
        text::occurs(
            expression,
            result.spec_convert_ffi_value_to_swift_value(
                expression,
                type_pos,
                types,
                swift_bridge_path,
            ),
        ),
{
    broadcast use text::lemma_occurs_before;

    text::lemma_occurs_itself(expression);
    text::lemma_occurs_between(expression, "try { let val = "@, expression, Seq::empty());
    text::lemma_occurs_between(expression, "let val = "@, expression, Seq::empty());
}

} // verus!

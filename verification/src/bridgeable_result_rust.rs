//! `Result<T, E>` as it crosses the bridge: its Rust source.
use proc_macro2::{Span, TokenStream};
use syn::Path;
use vstd::prelude::*;

use crate::bridgeable_result::BuiltInResult;
use crate::bridged_type::{Aspect, BridgeableType};
use crate::declarations::TypeDeclarations;
use crate::tokens;
use crate::tokens::{Bracket, Gap, Token};

verus! {

/// The words that stand in the Rust source made here are identifiers.
proof fn lemma_idents()
    ensures
        tokens::is_ident("match"@),
        tokens::is_ident("Ok"@),
        tokens::is_ident("Err"@),
        tokens::is_ident("ok"@),
        tokens::is_ident("err"@),
        tokens::is_ident("std"@),
        tokens::is_ident("ptr"@),
        tokens::is_ident("null_mut"@),
        tokens::is_ident("result"@),
        tokens::is_ident("ResultPtrAndPtr"@),
        tokens::is_ident("is_ok"@),
        tokens::is_ident("true"@),
        tokens::is_ident("false"@),
        tokens::is_ident("ok_or_err"@),
        tokens::is_ident("as"@),
        tokens::is_ident("mut"@),
        tokens::is_ident("ffi"@),
        tokens::is_ident("c_void"@),
        tokens::is_ident("if"@),
        tokens::is_ident("else"@),
        tokens::is_ident("Result"@),
        tokens::is_ident("repr"@),
        tokens::is_ident("C"@),
        tokens::is_ident("pub"@),
        tokens::is_ident("enum"@),
        tokens::is_ident("allow"@),
        tokens::is_ident("unused"@),
{
    reveal(tokens::is_ident);
    reveal_strlit("match");
    reveal_strlit("Ok");
    reveal_strlit("Err");
    reveal_strlit("ok");
    reveal_strlit("err");
    reveal_strlit("std");
    reveal_strlit("ptr");
    reveal_strlit("null_mut");
    reveal_strlit("result");
    reveal_strlit("ResultPtrAndPtr");
    reveal_strlit("is_ok");
    reveal_strlit("true");
    reveal_strlit("false");
    reveal_strlit("ok_or_err");
    reveal_strlit("as");
    reveal_strlit("mut");
    reveal_strlit("ffi");
    reveal_strlit("c_void");
    reveal_strlit("if");
    reveal_strlit("else");
    reveal_strlit("Result");
    reveal_strlit("repr");
    reveal_strlit("C");
    reveal_strlit("pub");
    reveal_strlit("enum");
    reveal_strlit("allow");
    reveal_strlit("unused");
}

/// `$path::result::ResultPtrAndPtr`
pub open spec fn flag_and_pointer_type<A>(mk: spec_fn(Token) -> A, path: Seq<A>) -> Seq<A> {
    path + tokens::path_sep(mk) + tokens::ident(mk, "result"@) + tokens::path_sep(mk)
        + tokens::ident(mk, "ResultPtrAndPtr"@)
}

/// `$variant($binding)`
pub open spec fn variant_of<A>(
    mk: spec_fn(Token) -> A,
    variant: Seq<char>,
    binding: Seq<char>,
) -> Seq<A> {
    tokens::ident(mk, variant) + tokens::group(mk, Bracket::Round, tokens::ident(mk, binding))
}

/// `match $expression { $arms }`
pub open spec fn match_on<A>(mk: spec_fn(Token) -> A, expression: Seq<A>, arms: Seq<A>) -> Seq<A> {
    tokens::ident(mk, "match"@) + expression + tokens::group(mk, Bracket::Curly, arms)
}

/// `Ok(ok) => $name::Ok $ok, Err(err) => $name::Err $err,`
pub open spec fn union_arms<A>(
    mk: spec_fn(Token) -> A,
    name: Seq<char>,
    ok: Seq<A>,
    err: Seq<A>,
) -> Seq<A> {
    variant_of(mk, "Ok"@, "ok"@) + tokens::fat_arrow(mk) + tokens::ident(mk, name)
        + tokens::path_sep(mk) + tokens::ident(mk, "Ok"@) + ok + tokens::punct(mk, ',')
        + variant_of(mk, "Err"@, "err"@) + tokens::fat_arrow(mk) + tokens::ident(mk, name)
        + tokens::path_sep(mk) + tokens::ident(mk, "Err"@) + err + tokens::punct(mk, ',')
}

/// `Ok(ok) => std::ptr::null_mut(), Err(err) => $err`
pub open spec fn error_pointer_arms<A>(mk: spec_fn(Token) -> A, err: Seq<A>) -> Seq<A> {
    variant_of(mk, "Ok"@, "ok"@) + tokens::fat_arrow(mk) + tokens::ident(mk, "std"@)
        + tokens::path_sep(mk) + tokens::ident(mk, "ptr"@) + tokens::path_sep(mk) + tokens::ident(
        mk,
        "null_mut"@,
    ) + tokens::group(mk, Bracket::Round, Seq::empty()) + tokens::punct(mk, ',') + variant_of(
        mk,
        "Err"@,
        "err"@,
    ) + tokens::fat_arrow(mk) + err
}

/// `is_ok: $flag, ok_or_err: $value as *mut std::ffi::c_void`
pub open spec fn flag_and_pointer_fields<A>(
    mk: spec_fn(Token) -> A,
    flag: Seq<char>,
    value: Seq<A>,
) -> Seq<A> {
    tokens::ident(mk, "is_ok"@) + tokens::punct(mk, ':') + tokens::ident(mk, flag) + tokens::punct(
        mk,
        ',',
    ) + tokens::ident(mk, "ok_or_err"@) + tokens::punct(mk, ':') + value + tokens::ident(
        mk,
        "as"@,
    ) + tokens::punct(mk, '*') + tokens::ident(mk, "mut"@) + tokens::ident(mk, "std"@)
        + tokens::path_sep(mk) + tokens::ident(mk, "ffi"@) + tokens::path_sep(mk) + tokens::ident(
        mk,
        "c_void"@,
    )
}

/// `{ $path::result::ResultPtrAndPtr { is_ok: $flag, .. } }`
pub open spec fn flag_and_pointer_block<A>(
    mk: spec_fn(Token) -> A,
    path: Seq<A>,
    flag: Seq<char>,
    value: Seq<A>,
) -> Seq<A> {
    tokens::group(
        mk,
        Bracket::Curly,
        flag_and_pointer_type(mk, path) + tokens::group(
            mk,
            Bracket::Curly,
            flag_and_pointer_fields(mk, flag, value),
        ),
    )
}

/// `Ok(ok) => { .. } Err(err) => { .. }`
pub open spec fn flag_and_pointer_arms<A>(
    mk: spec_fn(Token) -> A,
    path: Seq<A>,
    ok: Seq<A>,
    err: Seq<A>,
) -> Seq<A> {
    variant_of(mk, "Ok"@, "ok"@) + tokens::fat_arrow(mk) + flag_and_pointer_block(
        mk,
        path,
        "true"@,
        ok,
    ) + variant_of(mk, "Err"@, "err"@) + tokens::fat_arrow(mk) + flag_and_pointer_block(
        mk,
        path,
        "false"@,
        err,
    )
}

/// `std::result::Result::$variant($value)`
pub open spec fn rust_variant<A>(
    mk: spec_fn(Token) -> A,
    variant: Seq<char>,
    value: Seq<A>,
) -> Seq<A> {
    tokens::ident(mk, "std"@) + tokens::path_sep(mk) + tokens::ident(mk, "result"@)
        + tokens::path_sep(mk) + tokens::ident(mk, "Result"@) + tokens::path_sep(mk)
        + tokens::ident(mk, variant) + tokens::group(mk, Bracket::Round, value)
}

/// `if $expression.is_ok { std::result::Result::Ok($ok) } else {
/// std::result::Result::Err($err) }`
pub open spec fn rust_value<A>(
    mk: spec_fn(Token) -> A,
    expression: Seq<A>,
    ok: Seq<A>,
    err: Seq<A>,
) -> Seq<A> {
    tokens::ident(mk, "if"@) + expression + tokens::punct(mk, '.') + tokens::ident(mk, "is_ok"@)
        + tokens::group(mk, Bracket::Curly, rust_variant(mk, "Ok"@, ok)) + tokens::ident(
        mk,
        "else"@,
    ) + tokens::group(mk, Bracket::Curly, rust_variant(mk, "Err"@, err))
}

/// `Result<$ok, $err>`
pub open spec fn result_type<A>(mk: spec_fn(Token) -> A, ok: Seq<A>, err: Seq<A>) -> Seq<A> {
    tokens::ident(mk, "Result"@) + tokens::punct(mk, '<') + ok + tokens::punct(mk, ',') + err
        + tokens::punct(mk, '>')
}

/// `#[$name($argument)]`
pub open spec fn attribute<A>(
    mk: spec_fn(Token) -> A,
    name: Seq<char>,
    argument: Seq<char>,
) -> Seq<A> {
    tokens::punct(mk, '#') + tokens::group(mk, Bracket::Square, variant_of(mk, name, argument))
}

/// `#[repr(C)] pub enum $name { #[allow(unused)] Ok $ok, #[allow(unused)] Err $err, }`
pub open spec fn enum_definition<A>(
    mk: spec_fn(Token) -> A,
    name: Seq<char>,
    ok: Seq<A>,
    err: Seq<A>,
) -> Seq<A> {
    attribute(mk, "repr"@, "C"@) + tokens::ident(mk, "pub"@) + tokens::ident(mk, "enum"@)
        + tokens::ident(mk, name) + tokens::group(
        mk,
        Bracket::Curly,
        attribute(mk, "allow"@, "unused"@) + tokens::ident(mk, "Ok"@) + ok + tokens::punct(mk, ',')
            + attribute(mk, "allow"@, "unused"@) + tokens::ident(mk, "Err"@) + err + tokens::punct(
            mk,
            ',',
        ),
    )
}

/// `($inner)`, or nothing where there is nothing to hold.
pub open spec fn payload<A>(mk: spec_fn(Token) -> A, is_empty: bool, inner: Seq<A>) -> Seq<A> {
    if is_empty {
        Seq::empty()
    } else {
        tokens::group(mk, Bracket::Round, inner)
    }
}

fn payload_stream(is_empty: bool, inner: &TokenStream, span: Span) -> (r: TokenStream)
    ensures
        tokens::tokens(r) == payload(tokens::itself(), is_empty, tokens::tokens(*inner)),
        tokens::spans(r) == payload(tokens::at(span), is_empty, tokens::spans(*inner)),
{
    let mut r = TokenStream::new();
    if !is_empty {
        tokens::push_group(&mut r, Bracket::Round, tokens::copy_stream(inner), span);
    }
    r
}

fn flag_and_pointer_stream(path: &TokenStream, span: Span) -> (r: TokenStream)
    ensures
        tokens::tokens(r) == flag_and_pointer_type(tokens::itself(), tokens::tokens(*path)),
        tokens::spans(r) == flag_and_pointer_type(tokens::at(span), tokens::spans(*path)),
{
    proof {
        lemma_idents();
    }
    let mut r = tokens::copy_stream(path);
    tokens::push_operator(&mut r, ':', ':', span);
    tokens::push_ident(&mut r, "result", span);
    tokens::push_operator(&mut r, ':', ':', span);
    tokens::push_ident(&mut r, "ResultPtrAndPtr", span);
    r
}

fn push_variant_of(stream: &mut TokenStream, variant: &str, binding: &str, span: Span)
    requires
        tokens::is_ident(variant@),
        tokens::is_ident(binding@),
    ensures
        tokens::tokens(*final(stream)) == tokens::tokens(*old(stream)) + variant_of(
            tokens::itself(),
            variant@,
            binding@,
        ),
        tokens::spans(*final(stream)) == tokens::spans(*old(stream)) + variant_of(
            tokens::at(span),
            variant@,
            binding@,
        ),
{
    tokens::push_ident(stream, variant, span);
    tokens::push_group(stream, Bracket::Round, tokens::ident_stream(binding, span), span);
}

fn match_stream(expression: &TokenStream, arms: TokenStream, span: Span) -> (r: TokenStream)
    ensures
        tokens::tokens(r) == match_on(
            tokens::itself(),
            tokens::tokens(*expression),
            tokens::tokens(arms),
        ),
        tokens::spans(r) == match_on(
            tokens::at(span),
            tokens::spans(*expression),
            tokens::spans(arms),
        ),
{
    proof {
        lemma_idents();
    }
    let mut r = tokens::ident_stream("match", span);
    tokens::push_tokens(&mut r, expression);
    tokens::push_group(&mut r, Bracket::Curly, arms, span);
    r
}

fn union_arms_stream(name: &str, ok: &TokenStream, err: &TokenStream, span: Span) -> (r:
    TokenStream)
    requires
        tokens::is_ident(name@),
    ensures
        tokens::tokens(r) == union_arms(
            tokens::itself(),
            name@,
            tokens::tokens(*ok),
            tokens::tokens(*err),
        ),
        tokens::spans(r) == union_arms(
            tokens::at(span),
            name@,
            tokens::spans(*ok),
            tokens::spans(*err),
        ),
{
    proof {
        lemma_idents();
    }
    let mut r = TokenStream::new();
    push_variant_of(&mut r, "Ok", "ok", span);
    tokens::push_operator(&mut r, '=', '>', span);
    tokens::push_ident(&mut r, name, span);
    tokens::push_operator(&mut r, ':', ':', span);
    tokens::push_ident(&mut r, "Ok", span);
    tokens::push_tokens(&mut r, ok);
    tokens::push_punct(&mut r, ',', Gap::Alone, span);
    push_variant_of(&mut r, "Err", "err", span);
    tokens::push_operator(&mut r, '=', '>', span);
    tokens::push_ident(&mut r, name, span);
    tokens::push_operator(&mut r, ':', ':', span);
    tokens::push_ident(&mut r, "Err", span);
    tokens::push_tokens(&mut r, err);
    tokens::push_punct(&mut r, ',', Gap::Alone, span);
    r
}

fn error_pointer_arms_stream(err: &TokenStream, span: Span) -> (r: TokenStream)
    ensures
        tokens::tokens(r) == error_pointer_arms(tokens::itself(), tokens::tokens(*err)),
        tokens::spans(r) == error_pointer_arms(tokens::at(span), tokens::spans(*err)),
{
    proof {
        lemma_idents();
    }
    let mut r = TokenStream::new();
    push_variant_of(&mut r, "Ok", "ok", span);
    tokens::push_operator(&mut r, '=', '>', span);
    tokens::push_ident(&mut r, "std", span);
    tokens::push_operator(&mut r, ':', ':', span);
    tokens::push_ident(&mut r, "ptr", span);
    tokens::push_operator(&mut r, ':', ':', span);
    tokens::push_ident(&mut r, "null_mut", span);
    tokens::push_group(&mut r, Bracket::Round, TokenStream::new(), span);
    tokens::push_punct(&mut r, ',', Gap::Alone, span);
    push_variant_of(&mut r, "Err", "err", span);
    tokens::push_operator(&mut r, '=', '>', span);
    tokens::push_tokens(&mut r, err);
    r
}

fn push_flag_and_pointer_block(
    stream: &mut TokenStream,
    path: &TokenStream,
    flag: &str,
    value: &TokenStream,
    span: Span,
)
    requires
        tokens::is_ident(flag@),
    ensures
        tokens::tokens(*final(stream)) == tokens::tokens(*old(stream)) + flag_and_pointer_block(
            tokens::itself(),
            tokens::tokens(*path),
            flag@,
            tokens::tokens(*value),
        ),
        tokens::spans(*final(stream)) == tokens::spans(*old(stream)) + flag_and_pointer_block(
            tokens::at(span),
            tokens::spans(*path),
            flag@,
            tokens::spans(*value),
        ),
{
    proof {
        lemma_idents();
    }
    let mut fields = tokens::ident_stream("is_ok", span);
    tokens::push_punct(&mut fields, ':', Gap::Alone, span);
    tokens::push_ident(&mut fields, flag, span);
    tokens::push_punct(&mut fields, ',', Gap::Alone, span);
    tokens::push_ident(&mut fields, "ok_or_err", span);
    tokens::push_punct(&mut fields, ':', Gap::Alone, span);
    tokens::push_tokens(&mut fields, value);
    tokens::push_ident(&mut fields, "as", span);
    tokens::push_punct(&mut fields, '*', Gap::Alone, span);
    tokens::push_ident(&mut fields, "mut", span);
    tokens::push_ident(&mut fields, "std", span);
    tokens::push_operator(&mut fields, ':', ':', span);
    tokens::push_ident(&mut fields, "ffi", span);
    tokens::push_operator(&mut fields, ':', ':', span);
    tokens::push_ident(&mut fields, "c_void", span);

    let mut block = flag_and_pointer_stream(path, span);
    tokens::push_group(&mut block, Bracket::Curly, fields, span);
    tokens::push_group(stream, Bracket::Curly, block, span);
}

fn flag_and_pointer_arms_stream(
    path: &TokenStream,
    ok: &TokenStream,
    err: &TokenStream,
    span: Span,
) -> (r: TokenStream)
    ensures
        tokens::tokens(r) == flag_and_pointer_arms(
            tokens::itself(),
            tokens::tokens(*path),
            tokens::tokens(*ok),
            tokens::tokens(*err),
        ),
        tokens::spans(r) == flag_and_pointer_arms(
            tokens::at(span),
            tokens::spans(*path),
            tokens::spans(*ok),
            tokens::spans(*err),
        ),
{
    proof {
        lemma_idents();
    }
    let mut r = TokenStream::new();
    push_variant_of(&mut r, "Ok", "ok", span);
    tokens::push_operator(&mut r, '=', '>', span);
    push_flag_and_pointer_block(&mut r, path, "true", ok, span);
    push_variant_of(&mut r, "Err", "err", span);
    tokens::push_operator(&mut r, '=', '>', span);
    push_flag_and_pointer_block(&mut r, path, "false", err, span);
    r
}

fn rust_variant_stream(variant: &str, value: &TokenStream, span: Span) -> (r: TokenStream)
    requires
        tokens::is_ident(variant@),
    ensures
        tokens::tokens(r) == rust_variant(tokens::itself(), variant@, tokens::tokens(*value)),
        tokens::spans(r) == rust_variant(tokens::at(span), variant@, tokens::spans(*value)),
{
    proof {
        lemma_idents();
    }
    let mut r = tokens::ident_stream("std", span);
    tokens::push_operator(&mut r, ':', ':', span);
    tokens::push_ident(&mut r, "result", span);
    tokens::push_operator(&mut r, ':', ':', span);
    tokens::push_ident(&mut r, "Result", span);
    tokens::push_operator(&mut r, ':', ':', span);
    tokens::push_ident(&mut r, variant, span);
    tokens::push_group(&mut r, Bracket::Round, tokens::copy_stream(value), span);
    r
}

/// Rust source that puts a `Result` together from a flag, and from the source of
/// its two possible values.
pub fn flag_and_values_to_rust_value(
    expression: &TokenStream,
    ok: &TokenStream,
    err: &TokenStream,
    span: Span,
) -> (r: TokenStream)
    ensures
        tokens::tokens(r) == rust_value(
            tokens::itself(),
            tokens::tokens(*expression),
            tokens::tokens(*ok),
            tokens::tokens(*err),
        ),
        tokens::spans(r) == rust_value(
            tokens::at(span),
            tokens::spans(*expression),
            tokens::spans(*ok),
            tokens::spans(*err),
        ),
{
    proof {
        lemma_idents();
    }
    let ok_variant = rust_variant_stream("Ok", ok, span);
    let err_variant = rust_variant_stream("Err", err, span);
    let mut r = tokens::ident_stream("if", span);
    tokens::push_tokens(&mut r, expression);
    tokens::push_punct(&mut r, '.', Gap::Alone, span);
    tokens::push_ident(&mut r, "is_ok", span);
    tokens::push_group(&mut r, Bracket::Curly, ok_variant, span);
    tokens::push_ident(&mut r, "else", span);
    tokens::push_group(&mut r, Bracket::Curly, err_variant, span);
    r
}

fn push_attribute(stream: &mut TokenStream, name: &str, argument: &str, span: Span)
    requires
        tokens::is_ident(name@),
        tokens::is_ident(argument@),
    ensures
        tokens::tokens(*final(stream)) == tokens::tokens(*old(stream)) + attribute(
            tokens::itself(),
            name@,
            argument@,
        ),
        tokens::spans(*final(stream)) == tokens::spans(*old(stream)) + attribute(
            tokens::at(span),
            name@,
            argument@,
        ),
{
    let mut inner = TokenStream::new();
    push_variant_of(&mut inner, name, argument, span);
    tokens::push_punct(stream, '#', Gap::Alone, span);
    tokens::push_group(stream, Bracket::Square, inner, span);
}

fn enum_definition_stream(name: &str, ok: &TokenStream, err: &TokenStream, span: Span) -> (r:
    TokenStream)
    requires
        tokens::is_ident(name@),
    ensures
        tokens::tokens(r) == enum_definition(
            tokens::itself(),
            name@,
            tokens::tokens(*ok),
            tokens::tokens(*err),
        ),
        tokens::spans(r) == enum_definition(
            tokens::at(span),
            name@,
            tokens::spans(*ok),
            tokens::spans(*err),
        ),
{
    proof {
        lemma_idents();
    }
    let mut variants = TokenStream::new();
    push_attribute(&mut variants, "allow", "unused", span);
    tokens::push_ident(&mut variants, "Ok", span);
    tokens::push_tokens(&mut variants, ok);
    tokens::push_punct(&mut variants, ',', Gap::Alone, span);
    push_attribute(&mut variants, "allow", "unused", span);
    tokens::push_ident(&mut variants, "Err", span);
    tokens::push_tokens(&mut variants, err);
    tokens::push_punct(&mut variants, ',', Gap::Alone, span);

    let mut r = TokenStream::new();
    push_attribute(&mut r, "repr", "C", span);
    tokens::push_ident(&mut r, "pub", span);
    tokens::push_ident(&mut r, "enum", span);
    tokens::push_ident(&mut r, name, span);
    tokens::push_group(&mut r, Bracket::Curly, variants, span);
    r
}

impl<O: BridgeableType + ?Sized, E: BridgeableType + ?Sized> BuiltInResult<O, E> {
    /// The Rust type in which the result crosses the bridge.
    pub open spec fn spec_to_ffi_compatible_rust_type(
        &self,
        swift_bridge_path: &Path,
        types: &TypeDeclarations,
    ) -> Seq<Token> {
        if self.spec_is_custom_result_type() {
            tokens::ident(tokens::itself(), self.spec_custom_c_struct_name(types))
        } else if self.ok_ty.spec_can_be_encoded_with_zero_bytes() {
            self.err_ty.spec_to_ffi_compatible_rust_type(swift_bridge_path, types)
        } else {
            flag_and_pointer_type(tokens::itself(), tokens::path_tokens(*swift_bridge_path))
        }
    }

    /// Whether the locations in `r` are those of the Rust type in which the result
    /// crosses the bridge: `site`, but for those of the path. The type of an error that
    /// crosses the bridge alone has its own.
    pub open spec fn ffi_type_is_located(
        &self,
        r: TokenStream,
        path: TokenStream,
        site: Span,
        types: &TypeDeclarations,
    ) -> bool {
        if self.spec_is_custom_result_type() {
            tokens::spans(r) == tokens::ident(
                tokens::at(site),
                self.spec_custom_c_struct_name(types),
            )
        } else {
            self.ok_ty.spec_can_be_encoded_with_zero_bytes() || tokens::spans(r)
                == flag_and_pointer_type(tokens::at(site), tokens::spans(path))
        }
    }

    /// The Rust type in which the result crosses the bridge. All tokens that are made
    /// for it have one location.
    pub fn to_ffi_compatible_rust_type(
        &self,
        swift_bridge_path: &Path,
        types: &TypeDeclarations,
    ) -> (r: TokenStream)
        requires
            self.has(Aspect::FfiType, types),
        ensures
            tokens::tokens(r) == self.spec_to_ffi_compatible_rust_type(swift_bridge_path, types),
            exists|path: TokenStream, site: Span|
                tokens::tokens(path) == tokens::path_tokens(*swift_bridge_path)
                    && #[trigger] self.ffi_type_is_located(r, path, site, types),
    {
        let site = Span::call_site();
        let path = tokens::path_stream(swift_bridge_path);
        let r = if self.is_custom_result_type() {
            tokens::ident_stream(&self.custom_c_struct_name(types), site)
        } else if self.ok_ty.can_be_encoded_with_zero_bytes() {
            self.err_ty.to_ffi_compatible_rust_type(swift_bridge_path, types)
        } else {
            flag_and_pointer_stream(&path, site)
        };
        assert(self.ffi_type_is_located(r, path, site, types));
        r
    }

    /// `match $expression { .. }`, with the value that crosses the bridge for `Ok` and
    /// `Err`.
    pub open spec fn matched<A>(
        &self,
        mk: spec_fn(Token) -> A,
        expression: Seq<A>,
        ok: Seq<A>,
        err: Seq<A>,
        path: Seq<A>,
        types: &TypeDeclarations,
    ) -> Seq<A> {
        let zero_bytes = self.ok_ty.spec_can_be_encoded_with_zero_bytes();
        let arms = if self.spec_is_custom_result_type() {
            union_arms(
                mk,
                self.spec_custom_c_struct_name(types),
                payload(mk, zero_bytes, ok),
                payload(mk, false, err),
            )
        } else if zero_bytes {
            error_pointer_arms(mk, err)
        } else {
            flag_and_pointer_arms(mk, path, ok, err)
        };
        match_on(mk, expression, arms)
    }

    /// Rust source that turns a `Result` into what crosses the bridge.
    pub open spec fn spec_convert_rust_expression_to_ffi_type(
        &self,
        expression: Seq<Token>,
        swift_bridge_path: &Path,
        types: &TypeDeclarations,
        span: Span,
    ) -> Seq<Token> {
        self.matched(
            tokens::itself(),
            expression,
            self.ok_ty.spec_convert_rust_expression_to_ffi_type(
                tokens::ident(tokens::itself(), "ok"@),
                swift_bridge_path,
                types,
                span,
            ),
            self.err_ty.spec_convert_rust_expression_to_ffi_type(
                tokens::ident(tokens::itself(), "err"@),
                swift_bridge_path,
                types,
                span,
            ),
            tokens::path_tokens(*swift_bridge_path),
            types,
        )
    }

    /// Rust source that turns a `Result` into what crosses the bridge. All tokens have
    /// one location, but for those of the expression, of the path, and of the two
    /// values.
    pub fn convert_rust_expression_to_ffi_type(
        &self,
        expression: &TokenStream,
        swift_bridge_path: &Path,
        types: &TypeDeclarations,
        span: Span,
    ) -> (r: TokenStream)
        requires
            self.has(Aspect::RustToFfi, types),
        ensures
            tokens::tokens(r) == self.spec_convert_rust_expression_to_ffi_type(
                tokens::tokens(*expression),
                swift_bridge_path,
                types,
                span,
            ),
            exists|ok: TokenStream, err: TokenStream, path: TokenStream, site: Span|
                {
                    &&& tokens::tokens(ok) == self.ok_ty.spec_convert_rust_expression_to_ffi_type(
                        tokens::ident(tokens::itself(), "ok"@),
                        swift_bridge_path,
                        types,
                        span,
                    )
                    &&& tokens::tokens(err) == self.err_ty.spec_convert_rust_expression_to_ffi_type(
                        tokens::ident(tokens::itself(), "err"@),
                        swift_bridge_path,
                        types,
                        span,
                    )
                    &&& tokens::tokens(path) == tokens::path_tokens(*swift_bridge_path)
                    &&& tokens::spans(r) == #[trigger] self.matched(
                        tokens::at(site),
                        tokens::spans(*expression),
                        tokens::spans(ok),
                        tokens::spans(err),
                        tokens::spans(path),
                        types,
                    )
                },
    {
        proof {
            lemma_idents();
        }
        let site = Span::call_site();
        let path = tokens::path_stream(swift_bridge_path);
        let convert_ok = self.ok_ty.convert_rust_expression_to_ffi_type(
            &tokens::ident_stream("ok", site),
            swift_bridge_path,
            types,
            span,
        );
        let convert_err = self.err_ty.convert_rust_expression_to_ffi_type(
            &tokens::ident_stream("err", site),
            swift_bridge_path,
            types,
            span,
        );
        let zero_bytes = self.ok_ty.can_be_encoded_with_zero_bytes();
        let arms = if self.is_custom_result_type() {
            let ok = payload_stream(zero_bytes, &convert_ok, site);
            let err = payload_stream(false, &convert_err, site);
            union_arms_stream(&self.custom_c_struct_name(types), &ok, &err, site)
        } else if zero_bytes {
            error_pointer_arms_stream(&convert_err, site)
        } else {
            flag_and_pointer_arms_stream(&path, &convert_ok, &convert_err, site)
        };
        let r = match_stream(expression, arms, site);
        assert(tokens::spans(r) == self.matched(
            tokens::at(site),
            tokens::spans(*expression),
            tokens::spans(convert_ok),
            tokens::spans(convert_err),
            tokens::spans(path),
            types,
        ));
        r
    }

    /// Rust source that turns what crossed the bridge into a `Result`.
    pub open spec fn spec_convert_ffi_value_to_rust_value(
        &self,
        expression: Seq<Token>,
        swift_bridge_path: &Path,
        types: &TypeDeclarations,
    ) -> Seq<Token> {
        rust_value(
            tokens::itself(),
            expression,
            self.ok_ty.spec_convert_ffi_result_ok_value_to_rust_value(
                expression,
                swift_bridge_path,
                types,
            ),
            self.err_ty.spec_convert_ffi_result_err_value_to_rust_value(
                expression,
                swift_bridge_path,
                types,
            ),
        )
    }

    /// Rust source that turns a flag and a pointer that crossed the bridge into a
    /// `Result`. The tokens around the expression and the two values have the
    /// location `span`.
    pub fn convert_ffi_value_to_rust_value(
        &self,
        expression: &TokenStream,
        span: Span,
        swift_bridge_path: &Path,
        types: &TypeDeclarations,
    ) -> (r: TokenStream)
        requires
            self.ok_ty.has(Aspect::FfiResultToRust, types),
            self.err_ty.has(Aspect::FfiResultToRust, types),
        ensures
            tokens::tokens(r) == self.spec_convert_ffi_value_to_rust_value(
                tokens::tokens(*expression),
                swift_bridge_path,
                types,
            ),
            exists|ok: TokenStream, err: TokenStream|
                {
                    &&& #[trigger] tokens::tokens(ok)
                        == self.ok_ty.spec_convert_ffi_result_ok_value_to_rust_value(
                        tokens::tokens(*expression),
                        swift_bridge_path,
                        types,
                    )
                    &&& #[trigger] tokens::tokens(err)
                        == self.err_ty.spec_convert_ffi_result_err_value_to_rust_value(
                        tokens::tokens(*expression),
                        swift_bridge_path,
                        types,
                    )
                    &&& tokens::spans(r) == rust_value(
                        tokens::at(span),
                        tokens::spans(*expression),
                        tokens::spans(ok),
                        tokens::spans(err),
                    )
                },
    {
        let convert_ok = self.ok_ty.convert_ffi_result_ok_value_to_rust_value(
            expression,
            swift_bridge_path,
            types,
        );
        let convert_err = self.err_ty.convert_ffi_result_err_value_to_rust_value(
            expression,
            swift_bridge_path,
            types,
        );
        flag_and_values_to_rust_value(expression, &convert_ok, &convert_err, span)
    }

    /// `Result<$ok, $err>`
    pub open spec fn spec_to_rust_type_path(&self, types: &TypeDeclarations) -> Seq<Token> {
        result_type(
            tokens::itself(),
            self.ok_ty.spec_to_rust_type_path(types),
            self.err_ty.spec_to_rust_type_path(types),
        )
    }

    /// The result as Rust source. All tokens have one location, but for those of the
    /// two types.
    pub fn to_rust_type_path(&self, types: &TypeDeclarations) -> (r: TokenStream)
        ensures
            tokens::tokens(r) == self.spec_to_rust_type_path(types),
            exists|ok: TokenStream, err: TokenStream, site: Span|
                {
                    &&& tokens::tokens(ok) == self.ok_ty.spec_to_rust_type_path(types)
                    &&& tokens::tokens(err) == self.err_ty.spec_to_rust_type_path(types)
                    &&& tokens::spans(r) == #[trigger] result_type(
                        tokens::at(site),
                        tokens::spans(ok),
                        tokens::spans(err),
                    )
                },
    {
        proof {
            lemma_idents();
        }
        let site = Span::call_site();
        let ok = self.ok_ty.to_rust_type_path(types);
        let err = self.err_ty.to_rust_type_path(types);
        let mut r = tokens::ident_stream("Result", site);
        tokens::push_punct(&mut r, '<', Gap::Alone, site);
        tokens::push_tokens(&mut r, &ok);
        tokens::push_punct(&mut r, ',', Gap::Alone, site);
        tokens::push_tokens(&mut r, &err);
        tokens::push_punct(&mut r, '>', Gap::Alone, site);
        assert(tokens::spans(r) == result_type(
            tokens::at(site),
            tokens::spans(ok),
            tokens::spans(err),
        ));
        r
    }

    /// The definition of the tagged union in Rust, over the types of what it holds.
    pub open spec fn rust_definition<A>(
        &self,
        mk: spec_fn(Token) -> A,
        ok: Seq<A>,
        err: Seq<A>,
        types: &TypeDeclarations,
    ) -> Seq<A> {
        enum_definition(
            mk,
            self.spec_custom_c_struct_name(types),
            payload(mk, self.ok_ty.spec_can_be_encoded_with_zero_bytes(), ok),
            payload(mk, false, err),
        )
    }

    /// The definition of the tagged union in Rust, then those that `Ok` needs and
    /// those that `Err` needs.
    pub open spec fn spec_generate_custom_rust_ffi_types(
        &self,
        swift_bridge_path: &Path,
        types: &TypeDeclarations,
    ) -> Option<Seq<Seq<Token>>> {
        if self.spec_is_custom_result_type() {
            let definition = self.rust_definition(
                tokens::itself(),
                self.ok_ty.spec_to_ffi_compatible_rust_type(swift_bridge_path, types),
                self.err_ty.spec_to_ffi_compatible_rust_type(swift_bridge_path, types),
                types,
            );
            let ok = match self.ok_ty.spec_generate_custom_rust_ffi_types(
                swift_bridge_path,
                types,
            ) {
                Some(definitions) => definitions,
                None => Seq::empty(),
            };
            let err = match self.err_ty.spec_generate_custom_rust_ffi_types(
                swift_bridge_path,
                types,
            ) {
                Some(definitions) => definitions,
                None => Seq::empty(),
            };
            Some(seq![definition] + ok + err)
        } else {
            None
        }
    }

    /// Whether all tokens of the definition of the tagged union in Rust have one
    /// location, but for those of the types of what it holds.
    pub open spec fn definition_is_located(
        &self,
        definition: TokenStream,
        swift_bridge_path: &Path,
        types: &TypeDeclarations,
    ) -> bool {
        exists|ok: TokenStream, err: TokenStream, site: Span|
            {
                &&& self.ok_ty.spec_can_be_encoded_with_zero_bytes() || tokens::tokens(ok)
                    == self.ok_ty.spec_to_ffi_compatible_rust_type(swift_bridge_path, types)
                &&& tokens::tokens(err) == self.err_ty.spec_to_ffi_compatible_rust_type(
                    swift_bridge_path,
                    types,
                )
                &&& tokens::spans(definition) == #[trigger] self.rust_definition(
                    tokens::at(site),
                    tokens::spans(ok),
                    tokens::spans(err),
                    types,
                )
            }
    }

    /// The definitions of the Rust types that the result needs to cross the bridge,
    /// where it crosses it in a tagged union. All tokens of the first one have one
    /// location, but for those of the types of what the union holds.
    pub fn generate_custom_rust_ffi_types(
        &self,
        swift_bridge_path: &Path,
        types: &TypeDeclarations,
    ) -> (r: Option<Vec<TokenStream>>)
        requires
            self.has(Aspect::RustDefinitions, types),
        ensures
            match (r, self.spec_generate_custom_rust_ffi_types(swift_bridge_path, types)) {
                (Some(streams), Some(definitions)) => tokens::token_seqs(streams@) == definitions,
                (None, None) => true,
                _ => false,
            },
            r matches Some(streams) ==> self.definition_is_located(
                streams@[0],
                swift_bridge_path,
                types,
            ),
    {
        if !self.is_custom_result_type() {
            return None;
        }
        let site = Span::call_site();
        let zero_bytes = self.ok_ty.can_be_encoded_with_zero_bytes();
        let ok_type = if zero_bytes {
            TokenStream::new()
        } else {
            self.ok_ty.to_ffi_compatible_rust_type(swift_bridge_path, types)
        };
        let err_type = self.err_ty.to_ffi_compatible_rust_type(swift_bridge_path, types);
        let ok = payload_stream(zero_bytes, &ok_type, site);
        let err = payload_stream(false, &err_type, site);
        let mut definitions: Vec<TokenStream> = Vec::new();
        // `unused`: the compiler takes the variants for dead code.
        let definition = enum_definition_stream(&self.custom_c_struct_name(types), &ok, &err, site);
        assert(tokens::spans(definition) == self.rust_definition(
            tokens::at(site),
            tokens::spans(ok_type),
            tokens::spans(err_type),
            types,
        ));
        definitions.push(definition);
        if let Some(mut ok_definitions) = self.ok_ty.generate_custom_rust_ffi_types(
            swift_bridge_path,
            types,
        ) {
            definitions.append(&mut ok_definitions);
        }
        if let Some(mut err_definitions) = self.err_ty.generate_custom_rust_ffi_types(
            swift_bridge_path,
            types,
        ) {
            definitions.append(&mut err_definitions);
        }
        assert(tokens::token_seqs(definitions@)
            =~= self.spec_generate_custom_rust_ffi_types(swift_bridge_path, types)->0);
        assert(definitions@[0] == definition);
        Some(definitions)
    }
}

} // verus!

//! Rust token streams: what a `proc_macro2::TokenStream` holds, and the calls
//! that append to one.
//!
//! A stream is seen as the sequence of its tokens, in which a delimited group
//! stands as its opening delimiter, its own tokens and its closing delimiter. A
//! second sequence holds the source location of each token.
//!
//! `proc_macro2` has two implementations, the compiler's own and one for use
//! outside a macro, and panics where a stream is put together from both. Which one
//! `TokenStream::new` takes is a state of the process, so no contract here can name
//! it. That the callers of this crate hand in streams, paths and locations of one
//! implementation only, and do not switch to the other one in between, is assumed of
//! them.
use proc_macro2::{Delimiter, Group, Ident, Punct, Spacing, Span, TokenStream};
use quote::{ToTokens, TokenStreamExt};
use syn::Path;
use vstd::prelude::*;

use crate::text;

verus! {

/// The source location of a token.
#[verifier::external_type_specification]
#[verifier::external_body]
pub struct ExSpan(Span);

/// A sequence of Rust tokens.
#[verifier::external_type_specification]
#[verifier::external_body]
pub struct ExTokenStream(TokenStream);

/// A path of Rust source, such as `swift_bridge` or `crate::bridge`.
#[verifier::external_type_specification]
#[verifier::external_body]
pub struct ExPath(Path);

/// A kind of bracket around a group of tokens.
#[derive(Debug, Clone, Copy, PartialEq, Eq, Structural)]
pub enum Bracket {
    Round,
    Curly,
    Square,
    /// The group stands by itself without any visible bracket.
    Invisible,
}

/// What follows a character of punctuation.
#[derive(Debug, Clone, Copy, PartialEq, Eq, Structural)]
pub enum Gap {
    /// Another character of the same operator.
    Joint,
    /// Anything else: the operator ends here.
    Alone,
}

/// A token. `Seq<char>` is its text, without white space around it.
pub enum Token {
    Ident(Seq<char>),
    Literal(Seq<char>),
    /// One character of punctuation.
    Punct(char, Gap),
    Open(Bracket),
    Close(Bracket),
}

/// The tokens that a stream holds, in order.
pub uninterp spec fn tokens(stream: TokenStream) -> Seq<Token>;

/// The source locations of the tokens that a stream holds, in order. Both
/// brackets of a group have the location of the group.
pub uninterp spec fn spans(stream: TokenStream) -> Seq<Span>;

/// The tokens that a path holds, in order.
pub uninterp spec fn path_tokens(path: Path) -> Seq<Token>;

/// A letter, digit or underscore of ASCII, or a letter with an accent of Latin-1.
pub open spec fn is_word_char(c: char) -> bool {
    ||| 'a' <= c <= 'z'
    ||| 'A' <= c <= 'Z'
    ||| '0' <= c <= '9'
    ||| c == '_'
    ||| '\u{c0}' <= c <= '\u{ff}' && c != '\u{d7}' && c != '\u{f7}'
}

/// Every character is a letter, digit or underscore of ASCII, or a letter with an
/// accent of Latin-1.
pub open spec fn is_word(text: Seq<char>) -> bool {
    forall|i: int| 0 <= i < text.len() ==> is_word_char(#[trigger] text[i])
}

/// An identifier of ASCII and Latin-1 characters: a word that starts with no digit.
/// For other characters each implementation of the token stream has a Unicode table
/// and a normal form of its own.
#[verifier::opaque]
pub open spec fn is_ident(text: Seq<char>) -> bool {
    &&& text.len() > 0
    &&& is_word(text)
    &&& !('0' <= text[0] <= '9')
}

/// The characters that Rust has as punctuation.
pub open spec fn is_punct(c: char) -> bool {
    ||| c == '!' || c == '#' || c == '$' || c == '%' || c == '&' || c == '\'' || c == '*'
    ||| c == '+' || c == ',' || c == '-' || c == '.' || c == '/' || c == ':' || c == ';'
    ||| c == '<' || c == '=' || c == '>' || c == '?' || c == '@' || c == '^' || c == '|'
    ||| c == '~'
}

/// Takes a token as it is. The sequences below are made of what stands for each of
/// their tokens: the token, or its location.
pub open spec fn itself() -> spec_fn(Token) -> Token {
    |token: Token| token
}

/// Takes the one location that all tokens have in place of a token.
pub open spec fn at(site: Span) -> spec_fn(Token) -> Span {
    |token: Token| site
}

/// One identifier.
pub open spec fn ident<A>(mk: spec_fn(Token) -> A, text: Seq<char>) -> Seq<A> {
    seq![mk(Token::Ident(text))]
}

/// One character of punctuation that stands for itself.
pub open spec fn punct<A>(mk: spec_fn(Token) -> A, c: char) -> Seq<A> {
    seq![mk(Token::Punct(c, Gap::Alone))]
}

/// An operator of two characters.
pub open spec fn operator<A>(mk: spec_fn(Token) -> A, first: char, second: char) -> Seq<A> {
    seq![mk(Token::Punct(first, Gap::Joint)), mk(Token::Punct(second, Gap::Alone))]
}

/// `::`
pub open spec fn path_sep<A>(mk: spec_fn(Token) -> A) -> Seq<A> {
    operator(mk, ':', ':')
}

/// `=>`
pub open spec fn fat_arrow<A>(mk: spec_fn(Token) -> A) -> Seq<A> {
    operator(mk, '=', '>')
}

/// `inner` between brackets.
pub open spec fn group<A>(mk: spec_fn(Token) -> A, bracket: Bracket, inner: Seq<A>) -> Seq<A> {
    seq![mk(Token::Open(bracket))] + inner + seq![mk(Token::Close(bracket))]
}

/// The tokens of each of `streams`.
pub open spec fn token_seqs(streams: Seq<TokenStream>) -> Seq<Seq<Token>> {
    Seq::new(streams.len(), |i: int| tokens(streams[i]))
}

/// `TokenStream::new` makes a stream without tokens.
pub assume_specification[ TokenStream::new ]() -> (r: TokenStream)
    ensures
        tokens(r) == Seq::<Token>::empty(),
        spans(r) == Seq::<Span>::empty(),
;

/// `Span::call_site` is the location of the macro call that is being expanded, so
/// nothing is said of it here.
pub assume_specification[ Span::call_site ]() -> Span
;

/// `Ident::new` makes an identifier of the given text and location, and
/// `TokenStreamExt::append` adds it as the last token of the stream. `Ident::new`
/// panics on a text that is no identifier; every text that [`is_ident`] admits is
/// one, and is its own normal form.
#[verifier::external_body]
pub(crate) fn push_ident(stream: &mut TokenStream, text: &str, span: Span)
    requires
        is_ident(text@),
    ensures
        tokens(*final(stream)) == tokens(*old(stream)) + seq![Token::Ident(text@)],
        spans(*final(stream)) == spans(*old(stream)) + seq![span],
{
    stream.append(Ident::new(text, span));
}

/// `Punct::new` makes a character of punctuation, `Punct::set_span` gives it its
/// location, and `TokenStreamExt::append` adds it as the last token of the stream.
/// `Punct::new` panics on a character that is no punctuation.
#[verifier::external_body]
pub(crate) fn push_punct(stream: &mut TokenStream, c: char, gap: Gap, span: Span)
    requires
        is_punct(c),
    ensures
        tokens(*final(stream)) == tokens(*old(stream)) + seq![Token::Punct(c, gap)],
        spans(*final(stream)) == spans(*old(stream)) + seq![span],
{
    let spacing = match gap {
        Gap::Joint => Spacing::Joint,
        Gap::Alone => Spacing::Alone,
    };
    let mut punct = Punct::new(c, spacing);
    punct.set_span(span);
    stream.append(punct);
}

/// `Group::new` puts a bracket around the tokens of `inner`, `Group::set_span`
/// gives the group its location, and `TokenStreamExt::append` adds it at the end of
/// the stream. The tokens of `inner` keep their locations.
#[verifier::external_body]
pub(crate) fn push_group(
    stream: &mut TokenStream,
    bracket: Bracket,
    inner: TokenStream,
    span: Span,
)
    ensures
        tokens(*final(stream)) == tokens(*old(stream)) + (seq![Token::Open(bracket)] + tokens(
            inner,
        ) + seq![Token::Close(bracket)]),
        spans(*final(stream)) == spans(*old(stream)) + (seq![span] + spans(inner) + seq![span]),
{
    let delimiter = match bracket {
        Bracket::Round => Delimiter::Parenthesis,
        Bracket::Curly => Delimiter::Brace,
        Bracket::Square => Delimiter::Bracket,
        Bracket::Invisible => Delimiter::None,
    };
    let mut group = Group::new(delimiter, inner);
    group.set_span(span);
    stream.append(group);
}

/// `ToTokens::to_tokens` of a `TokenStream` adds its tokens, with their locations,
/// at the end of another stream.
#[verifier::external_body]
pub(crate) fn push_tokens(stream: &mut TokenStream, more: &TokenStream)
    ensures
        tokens(*final(stream)) == tokens(*old(stream)) + tokens(*more),
        spans(*final(stream)) == spans(*old(stream)) + spans(*more),
{
    more.to_tokens(stream);
}

/// `ToTokens::to_tokens` of a `syn::Path` adds the tokens of the path at the end of
/// a stream. Of their locations nothing is said.
#[verifier::external_body]
pub(crate) fn push_path(stream: &mut TokenStream, path: &Path)
    ensures
        tokens(*final(stream)) == tokens(*old(stream)) + path_tokens(*path),
{
    path.to_tokens(stream);
}

/// Whether a text is an identifier of ASCII and Latin-1 characters.
pub fn is_identifier(text: &str) -> (r: bool)
    ensures
        r == is_ident(text@),
{
    reveal(is_ident);
    let chars = text::char_vec(text);
    if chars.len() == 0 || ('0' <= chars[0] && chars[0] <= '9') {
        return false;
    }
    let mut i: usize = 0;
    while i < chars.len()
        invariant
            chars@ == text@,
            i <= chars@.len(),
            forall|j: int| 0 <= j < i ==> is_word_char(#[trigger] chars@[j]),
        decreases chars@.len() - i,
    {
        let c = chars[i];
        let is_ascii = ('a' <= c && c <= 'z') || ('A' <= c && c <= 'Z') || ('0' <= c && c <= '9')
            || c == '_';
        let is_accented = '\u{c0}' <= c && c <= '\u{ff}' && c != '\u{d7}' && c != '\u{f7}';
        if !is_ascii && !is_accented {
            proof {
                reveal(is_ident);
                assert(!is_word_char(text@[i as int]));
            }
            return false;
        }
        i = i + 1;
    }
    true
}

/// Adds an operator of two characters.
pub(crate) fn push_operator(stream: &mut TokenStream, first: char, second: char, span: Span)
    requires
        is_punct(first),
        is_punct(second),
    ensures
        tokens(*final(stream)) == tokens(*old(stream)) + operator(itself(), first, second),
        spans(*final(stream)) == spans(*old(stream)) + operator(at(span), first, second),
{
    push_punct(stream, first, Gap::Joint, span);
    push_punct(stream, second, Gap::Alone, span);
}

/// A stream of one identifier.
pub(crate) fn ident_stream(text: &str, span: Span) -> (r: TokenStream)
    requires
        is_ident(text@),
    ensures
        tokens(r) == ident(itself(), text@),
        spans(r) == ident(at(span), text@),
{
    let mut r = TokenStream::new();
    push_ident(&mut r, text, span);
    r
}

/// A stream of the tokens of a path.
pub(crate) fn path_stream(path: &Path) -> (r: TokenStream)
    ensures
        tokens(r) == path_tokens(*path),
{
    let mut r = TokenStream::new();
    push_path(&mut r, path);
    r
}

/// A copy of a stream.
pub(crate) fn copy_stream(stream: &TokenStream) -> (r: TokenStream)
    ensures
        tokens(r) == tokens(*stream),
        spans(r) == spans(*stream),
{
    let mut r = TokenStream::new();
    push_tokens(&mut r, stream);
    r
}

} // verus!
